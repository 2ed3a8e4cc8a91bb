//! The painter's style data model as the pointer core's host toolkit shares
//! it: brushes, tile modes and path styles. Pure data with accessors.

use vstd::prelude::*;

verus! {

/// How an image brush is laid over the painted path, one bit per axis
/// behaviour.
///
/// - Repeat bits tile the image until the path is full; an image greater
///   than the path is clipped.
/// - Cover bits resize the image to cover the entire path, even if it has to
///   stretch the image or cut a little bit off one of the edges.
#[derive(Clone, Copy, Debug, PartialEq, Eq, Structural)]
pub struct TileMode {
    pub bits: u8,
}

impl TileMode {
    /// Tile the image along the X axis.
    pub const REPEAT_X: u8 = 0b0000_0001;
    /// Tile the image along the Y axis.
    pub const REPEAT_Y: u8 = 0b0000_0010;
    /// Tile the image along both axes.
    pub const REPEAT_BOTH: u8 = 0b0000_0011;
    /// Stretch the image to cover the X axis.
    pub const COVER_X: u8 = 0b0000_0100;
    /// Stretch the image to cover the Y axis.
    pub const COVER_Y: u8 = 0b0000_1000;
    /// Stretch the image to cover both axes.
    pub const COVER_BOTH: u8 = 0b0000_1100;
    /// Tile along X, stretch to cover along Y.
    pub const REPEAT_X_COVER_Y: u8 = 0b0000_1001;
    /// Stretch to cover along X, tile along Y.
    pub const COVER_X_REPEAT_Y: u8 = 0b0000_0110;

    /// The mode holding exactly the behaviour bits of `bits`.
    pub fn from_bits(bits: u8) -> (r: Self)
        ensures
            r.bits == bits,
    {
        TileMode { bits }
    }

    /// Whether the image is stretched to cover the path on at least one
    /// axis.
    pub fn is_cover_mode(&self) -> (r: bool)
        ensures
            r == ((self.bits & TileMode::COVER_BOTH) != 0),
    {
        self.bits & TileMode::COVER_BOTH > 0
    }
}

/// An sRGBA color with 8-bit channels: the painter's color model as this
/// crate needs it.
#[derive(Clone, Copy, Debug, PartialEq, Eq, Structural)]
pub struct Color {
    pub red: u8,
    pub green: u8,
    pub blue: u8,
    pub alpha: u8,
}

impl Color {
    /// Opaque black.
    pub fn black() -> (r: Self)
        ensures
            r == (Color { red: 0, green: 0, blue: 0, alpha: 255 }),
    {
        Color { red: 0, green: 0, blue: 0, alpha: 255 }
    }
}

/// A handle to a shared image resource. Handles compare shallowly: two are
/// equal exactly when they name the same underlying resource, whose pixel
/// data lives with the painter, outside this crate.
#[derive(Clone, Copy, Debug, PartialEq, Eq, Structural)]
pub struct ShallowImage {
    /// The painter's identifier of the shared resource.
    pub resource_id: u64,
}

/// What fills the painted shape.
#[derive(Clone, Copy, Debug, PartialEq, Eq, Structural)]
pub enum Brush {
    /// A solid color.
    Color(Color),
    /// An image laid over the shape as `tile_mode` says.
    Image { img: ShallowImage, tile_mode: TileMode },
    /// A gradient fill; its stops live with the painter.
    Gradient,
}

impl From<Color> for Brush {
    fn from(c: Color) -> (r: Self) {
        Brush::Color(c)
    }
}

impl vstd::std_specs::convert::FromSpecImpl<Color> for Brush {
    open spec fn obeys_from_spec() -> bool {
        true
    }

    open spec fn from_spec(c: Color) -> Brush {
        Brush::Color(c)
    }
}

impl Default for Brush {
    /// Opaque black.
    fn default() -> (r: Self)
        ensures
            r == Brush::Color((Color { red: 0, green: 0, blue: 0, alpha: 255 })),
    {
        Brush::Color(Color::black())
    }
}

/// `lyon_tessellation::StrokeOptions`, declared for Verus: the tessellator's
/// stroke parameters, carried opaquely by [`PathStyle::Stroke`] and read
/// only by the rendering layer.
#[verifier::external_type_specification]
#[verifier::external_body]
pub struct ExStrokeOptions(lyon_tessellation::StrokeOptions);

/// The style to paint a path: fill it, or stroke it with the carried line
/// options.
#[derive(Clone, Copy, Debug)]
pub enum PathStyle {
    /// Fill the path.
    Fill,
    /// Stroke the path with the given line width, caps and joins.
    Stroke(lyon_tessellation::StrokeOptions),
}

} // verus!
