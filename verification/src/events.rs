//! The hardware-agnostic pointer event model: pure data with accessors.

use vstd::prelude::*;

verus! {

/// An `f32` carried opaquely as its raw IEEE-754 bit pattern.
///
/// The pointer core records contact geometry, pressure and orientation for
/// its subscribers but never computes with them, so they travel through this
/// crate as uninterpreted bit patterns. Drivers convert at the boundary with
/// `f32::to_bits` / `f32::from_bits`.
#[derive(Clone, Copy, Debug, PartialEq, Eq, Structural)]
pub struct F32Bits {
    pub bits: u32,
}

/// An X, Y coordinate pair, each axis an [`F32Bits`] scalar.
#[derive(Clone, Copy, Debug, PartialEq, Eq, Structural)]
pub struct Point {
    pub x: F32Bits,
    pub y: F32Bits,
}

/// A unique identifier distinguishing concurrent pointers (e.g. several
/// touches). Equality is the only operation callers may rely on.
#[derive(Clone, Copy, Debug, PartialEq, Eq, Structural)]
pub struct PointerId(pub usize);

/// The device type that produced an event.
#[derive(Clone, Copy, Debug, PartialEq, Eq, Structural)]
pub enum PointerType {
    /// The event was generated by a mouse device.
    Mouse,
    /// The event was generated by a pen or stylus device.
    Pen,
    /// The event was generated by a touch, such as a finger.
    Touch,
}

/// The set of mouse buttons held during an event, one bit per button.
///
/// Bit positions are stable and never renumbered: callers may persist or
/// compare raw `bits` values across versions.
#[derive(Clone, Copy, Debug, PartialEq, Eq, Structural)]
pub struct MouseButtons {
    pub bits: u8,
}

impl MouseButtons {
    /// Primary button (usually the left button).
    pub const PRIMARY: u8 = 0b0000_0001;
    /// Secondary button (usually the right button).
    pub const SECONDARY: u8 = 0b0000_0010;
    /// Auxiliary button (usually the mouse wheel button or middle button).
    pub const AUXILIARY: u8 = 0b0000_0100;
    /// 4th button (typically the "Browser Back" button).
    pub const FOURTH: u8 = 0b0000_1000;
    /// 5th button (typically the "Browser Forward" button).
    pub const FIFTH: u8 = 0b0001_0000;

    /// The set holding exactly the buttons of `bits`.
    pub fn from_bits(bits: u8) -> (r: Self)
        ensures
            r.bits == bits,
    {
        MouseButtons { bits }
    }

    /// The empty button set.
    pub fn empty() -> (r: Self)
        ensures
            r.bits == 0,
    {
        MouseButtons { bits: 0 }
    }

    /// True when no button is held.
    pub fn is_empty(&self) -> (r: bool)
        ensures
            r == (self.bits == 0),
    {
        self.bits == 0
    }

    /// The buttons held in `self` or in `other`.
    pub fn union(&self, other: &Self) -> (r: Self)
        ensures
            r.bits == (self.bits | other.bits),
    {
        MouseButtons { bits: self.bits | other.bits }
    }

    /// The buttons held both in `self` and in `other`.
    pub fn intersection(&self, other: &Self) -> (r: Self)
        ensures
            r.bits == (self.bits & other.bits),
    {
        MouseButtons { bits: self.bits & other.bits }
    }

    /// True when every button of `other` is also held in `self`.
    pub fn contains(&self, other: &Self) -> (r: bool)
        ensures
            r == ((self.bits & other.bits) == other.bits),
    {
        (self.bits & other.bits) == other.bits
    }
}

impl Default for MouseButtons {
    /// The empty button set.
    fn default() -> (r: Self)
        ensures
            r.bits == 0,
    {
        MouseButtons { bits: 0 }
    }
}

/// Number of set bits in `b`: the population count of a button bit set.
pub open spec fn popcount8(b: u8) -> u32 {
    ((b & 0x01) + ((b >> 1) & 0x01) + ((b >> 2) & 0x01) + ((b >> 3) & 0x01) + ((b >> 4) & 0x01)
        + ((b >> 5) & 0x01) + ((b >> 6) & 0x01) + ((b >> 7) & 0x01)) as u32
}

/// The shared envelope every event of the surrounding event system carries.
///
/// The wider event system owns its full definition; the pointer core only
/// needs the arrival time and the propagation-control flags that subscribers
/// may read or set during a dispatch cycle.
#[derive(Clone, Copy, Debug, PartialEq, Eq, Structural)]
pub struct EventCommon {
    /// Arrival time of the event, in milliseconds of a monotonic clock.
    pub timestamp_ms: u64,
    /// Set by a subscriber to stop the event from bubbling further.
    pub cancel_bubble: bool,
    /// Set by a subscriber to suppress the default action.
    pub prevent_default: bool,
}

/// A hardware-agnostic pointer event.
///
/// A pointer is a device that can target a set of screen coordinates; one
/// event model for all pointers lets widgets handle mouse, pen and touch
/// uniformly, while `point_type` still allows device-specific handling.
///
/// Field ranges (pressure in `[0, 1]`, tilt in `[-90, 90]` degrees, twist in
/// `[0, 359]` degrees) are a contract on the upstream translator; this core
/// carries the values without validating them.
#[derive(Clone, Copy, Debug)]
pub struct PointerEvent {
    /// The X, Y coordinate of the pointer in the current target widget.
    pub position: Point,
    /// The X, Y coordinate of the pointer in global (window) coordinates.
    pub global_pos: Point,
    /// A unique identifier for the pointer causing the event.
    pub id: PointerId,
    /// The width (magnitude on the X axis), in pixels, of the contact
    /// geometry of the pointer.
    pub width: F32Bits,
    /// The height (magnitude on the Y axis), in pixels, of the contact
    /// geometry of the pointer.
    pub height: F32Bits,
    /// The normalized pressure of the pointer input in the range 0 to 1.
    pub pressure: F32Bits,
    /// The plane angle, in degrees in the range -90 to 90, between the Y-Z
    /// plane and the plane containing the pointer axis and the Y axis.
    pub tilt_x: F32Bits,
    /// The plane angle, in degrees in the range -90 to 90, between the X-Z
    /// plane and the plane containing the pointer axis and the X axis.
    pub tilt_y: F32Bits,
    /// The clockwise rotation of the pointer around its major axis, in
    /// degrees in the range 0 to 359.
    pub twist: F32Bits,
    /// The device type that caused the event (mouse, pen, touch).
    pub point_type: PointerType,
    /// Whether the pointer is the primary pointer of its type.
    pub is_primary: bool,
    /// The buttons being depressed (if any) when the event was fired.
    pub buttons: MouseButtons,
    /// The shared envelope of the surrounding event system.
    pub common: EventCommon,
}

impl PointerEvent {
    /// The number of buttons held when the event was fired: the population
    /// count of the `buttons` bit set.
    pub fn button_num(&self) -> (r: u32)
        ensures
            r == popcount8(self.buttons.bits),
    {
        let b = self.buttons.bits;
        (b & 0x01) as u32 + ((b >> 1) & 0x01) as u32 + ((b >> 2) & 0x01) as u32
            + ((b >> 3) & 0x01) as u32 + ((b >> 4) & 0x01) as u32 + ((b >> 5) & 0x01) as u32
            + ((b >> 6) & 0x01) as u32 + ((b >> 7) & 0x01) as u32
    }

    /// Shared view of the common envelope.
    pub fn common(&self) -> (r: &EventCommon)
        ensures
            r == self.common,
    {
        &self.common
    }

    /// Exclusive view of the common envelope, e.g. to set a propagation
    /// flag; every other field keeps its value.
    pub fn common_mut(&mut self) -> (r: &mut EventCommon)
        ensures
            *r == old(self).common,
            final(self).common == *final(r),
            final(self).position == old(self).position,
            final(self).global_pos == old(self).global_pos,
            final(self).id == old(self).id,
            final(self).width == old(self).width,
            final(self).height == old(self).height,
            final(self).pressure == old(self).pressure,
            final(self).tilt_x == old(self).tilt_x,
            final(self).tilt_y == old(self).tilt_y,
            final(self).twist == old(self).twist,
            final(self).point_type == old(self).point_type,
            final(self).is_primary == old(self).is_primary,
            final(self).buttons == old(self).buttons,
    {
        &mut self.common
    }
}

} // verus!
