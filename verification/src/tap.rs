//! The multi-tap gesture recognizer: a timing state machine that folds one
//! widget's stream of `Tap` events into synthesized N-tap events.

use vstd::prelude::*;

use crate::dispatch::{EventFilter, PointerAttr, PointerEventType, SubEntry, SubscriptionHandle};
use crate::events::{MouseButtons, PointerEvent, PointerType};

verus! {

/// Milliseconds allowed between the first tap of a run and every later tap
/// of the same run. The window is anchored to the first tap, bounding the
/// whole gesture's duration rather than the gap between neighbouring taps.
pub const TAP_WINDOW_MS: u64 = 250;

/// The accumulator of an in-progress tap run: when it began, how many taps
/// it holds, and the identity (pointer type, exact button set) every tap of
/// the run must share.
#[derive(Clone, Copy, Debug, PartialEq, Eq, Structural)]
pub struct TapInfo {
    /// Arrival time of the first tap of the run, in milliseconds of the
    /// monotonic clock the driver samples.
    pub first_tap_stamp: u64,
    /// Taps accumulated in the run so far.
    pub tap_times: u8,
    /// Device type every tap of the run shares.
    pub pointer_type: PointerType,
    /// Exact button set every tap of the run shares.
    pub mouse_btns: MouseButtons,
}

/// A run that begins at `now_ms` with a single tap of the given identity.
pub open spec fn fresh_run(now_ms: u64, pt: PointerType, btns: MouseButtons) -> TapInfo {
    TapInfo { first_tap_stamp: now_ms, tap_times: 1, pointer_type: pt, mouse_btns: btns }
}

/// Whether a tap arriving at `now_ms` with the given identity continues the
/// run `info` of a recognizer waiting for `times` taps: same pointer type,
/// same exact button set, count not yet saturated, and still inside the
/// window anchored at the run's first tap.
pub open spec fn continues_run(
    info: TapInfo,
    times: u8,
    now_ms: u64,
    pt: PointerType,
    btns: MouseButtons,
) -> bool {
    &&& info.pointer_type == pt
    &&& info.mouse_btns == btns
    &&& info.tap_times < times
    &&& info.first_tap_stamp <= now_ms
    &&& now_ms - info.first_tap_stamp < TAP_WINDOW_MS
}

/// The recognizer's transition on one incoming tap: a continuing tap
/// increments the run's count and keeps its anchor; any other tap (first tap
/// ever, identity mismatch, count saturated, window expired) becomes the
/// first tap of a brand-new run.
pub open spec fn tap_step(
    st: Option<TapInfo>,
    times: u8,
    now_ms: u64,
    pt: PointerType,
    btns: MouseButtons,
) -> TapInfo {
    match st {
        Some(info) => if continues_run(info, times, now_ms, pt, btns) {
            TapInfo { tap_times: (info.tap_times + 1) as u8, ..info }
        } else {
            fresh_run(now_ms, pt, btns)
        },
        None => fresh_run(now_ms, pt, btns),
    }
}

/// The multi-tap state machine for one widget: created by
/// [`PointerAttr::tap_times_observable`], fed every delivered `Tap` event,
/// and reporting when a synthesized `times`-tap event is due downstream.
pub struct TapRecognizer {
    times: u8,
    state: Option<TapInfo>,
}

impl TapRecognizer {
    /// The target tap count N of this recognizer.
    pub closed spec fn times(&self) -> u8 {
        self.times
    }

    /// The in-progress run, or `None` before the first tap is seen.
    pub closed spec fn state(&self) -> Option<TapInfo> {
        self.state
    }

    /// Well-formedness: the target count is at least one, and a run never
    /// accumulates more taps than the target.
    pub open spec fn wf(&self) -> bool {
        &&& 1 <= self.times()
        &&& match self.state() {
            Some(info) => 1 <= info.tap_times <= self.times(),
            None => true,
        }
    }

    /// A recognizer waiting for `times` consecutive qualifying taps, with no
    /// run in progress.
    pub fn new(times: u8) -> (r: Self)
        requires
            1 <= times,
        ensures
            r.times() == times,
            r.state() is None,
            r.wf(),
    {
        TapRecognizer { times, state: None }
    }

    /// Observes the next tap of the widget's tap stream, arriving at
    /// `now_ms` (milliseconds of a monotonic clock), and steps the state
    /// machine. Returns whether the run's count just reached the target, in
    /// which case the driver re-emits `event` downstream as the synthesized
    /// N-tap event.
    pub fn observe_tap(&mut self, now_ms: u64, event: &PointerEvent) -> (fires: bool)
        requires
            old(self).wf(),
        ensures
            final(self).wf(),
            final(self).times() == old(self).times(),
            final(self).state() == Some(
                tap_step(
                    old(self).state(),
                    old(self).times(),
                    now_ms,
                    event.point_type,
                    event.buttons,
                ),
            ),
            fires == (tap_step(
                old(self).state(),
                old(self).times(),
                now_ms,
                event.point_type,
                event.buttons,
            ).tap_times == old(self).times()),
    {
        let pt = event.point_type;
        let btns = event.buttons;
        let continuing = match &self.state {
            Some(info) => info.pointer_type == pt && info.mouse_btns == btns
                && info.tap_times < self.times && info.first_tap_stamp <= now_ms
                && now_ms - info.first_tap_stamp < TAP_WINDOW_MS,
            None => false,
        };
        if continuing {
            match &mut self.state {
                Some(info) => {
                    info.tap_times = info.tap_times + 1;
                },
                None => {},
            }
        } else {
            self.state = Some(
                TapInfo { first_tap_stamp: now_ms, tap_times: 1, pointer_type: pt, mouse_btns: btns },
            );
        }
        match &self.state {
            Some(info) => info.tap_times == self.times,
            None => false,
        }
    }
}

/// A multi-tap stream derived from one widget's channel: the Tap-filtered
/// subscription it rests on, and the recognizer that folds it. The driver
/// feeds [`TapRecognizer::observe_tap`] every event delivered to `handle`
/// and re-emits the event downstream whenever the recognizer fires; the
/// stream never ends on its own and stops with the subscription.
pub struct TapTimesObservable {
    /// The underlying registration for `Tap` events; cancelling it ends the
    /// derived stream.
    pub handle: SubscriptionHandle,
    /// The state machine that folds the tap stream.
    pub recognizer: TapRecognizer,
}

impl PointerAttr {
    /// Builds the derived stream that synthesizes one event per run of
    /// `times` qualifying taps: registers a `Tap` subscription on this
    /// widget's channel and pairs it with a fresh recognizer.
    pub fn tap_times_observable(&mut self, times: u8) -> (r: TapTimesObservable)
        requires
            1 <= times,
        ensures
            final(self).entries() == old(self).entries().push(
                (SubEntry { filter: EventFilter::Kind(PointerEventType::Tap), active: true }),
            ),
            r.handle.index as int == old(self).entries().len(),
            r.recognizer.times() == times,
            r.recognizer.state() is None,
            r.recognizer.wf(),
    {
        let handle = self.listen_on(PointerEventType::Tap);
        TapTimesObservable { handle, recognizer: TapRecognizer::new(times) }
    }
}

/// One tap of a stream, as the recognizer's laws speak of it: its arrival
/// time and its identity.
#[derive(Clone, Copy, Debug, PartialEq, Eq, Structural)]
pub struct TapSample {
    /// Arrival time in milliseconds.
    pub now_ms: u64,
    /// Device type of the tap.
    pub pointer_type: PointerType,
    /// Exact button set held during the tap.
    pub mouse_btns: MouseButtons,
}

/// The run a recognizer for `times` taps is left with after observing the
/// whole sequence `taps`, starting from `st`.
pub open spec fn run_state(times: u8, st: Option<TapInfo>, taps: Seq<TapSample>) -> Option<
    TapInfo,
>
    decreases taps.len(),
{
    if taps.len() == 0 {
        st
    } else {
        let prev = run_state(times, st, taps.drop_last());
        let t = taps.last();
        Some(tap_step(prev, times, t.now_ms, t.pointer_type, t.mouse_btns))
    }
}

/// How many synthesized `times`-tap events a recognizer starting from `st`
/// emits while observing the sequence `taps`.
pub open spec fn fire_count(times: u8, st: Option<TapInfo>, taps: Seq<TapSample>) -> nat
    decreases taps.len(),
{
    if taps.len() == 0 {
        0
    } else {
        let prev = run_state(times, st, taps.drop_last());
        let t = taps.last();
        fire_count(times, st, taps.drop_last()) + if tap_step(
            prev,
            times,
            t.now_ms,
            t.pointer_type,
            t.mouse_btns,
        ).tap_times == times {
            1nat
        } else {
            0nat
        }
    }
}

/// Whether every tap of `taps` carries the identity of `taps[0]` and arrives
/// inside the window anchored at `taps[0]`: the premise of a qualifying run.
pub open spec fn qualifying_run(taps: Seq<TapSample>) -> bool {
    &&& forall|j: int|
        0 <= j < taps.len() ==> #[trigger] taps[j].pointer_type == taps[0].pointer_type
            && taps[j].mouse_btns == taps[0].mouse_btns
    &&& forall|j: int|
        0 <= j < taps.len() ==> taps[0].now_ms <= #[trigger] taps[j].now_ms
            && taps[j].now_ms - taps[0].now_ms < TAP_WINDOW_MS
}

/// After `k` taps of a qualifying run observed from the idle state, the
/// recognizer holds a run of exactly `k` taps anchored at the first one, and
/// has fired exactly once if `k` reached the target and never before.
proof fn lemma_qualifying_prefix(times: u8, taps: Seq<TapSample>, k: int)
    requires
        1 <= times,
        taps.len() <= times,
        qualifying_run(taps),
        1 <= k <= taps.len(),
    ensures
        run_state(times, None, taps.take(k)) == Some(
            TapInfo {
                first_tap_stamp: taps[0].now_ms,
                tap_times: k as u8,
                pointer_type: taps[0].pointer_type,
                mouse_btns: taps[0].mouse_btns,
            },
        ),
        fire_count(times, None, taps.take(k)) == if k == times {
            1nat
        } else {
            0nat
        },
    decreases k,
{
    let prefix = taps.take(k);
    let t = taps[k - 1];
    assert(prefix.last() == t);
    if k == 1 {
        assert(prefix.drop_last() =~= taps.take(0));
        assert(run_state(times, None, taps.take(0)) is None);
        assert(fire_count(times, None, taps.take(0)) == 0);
        assert(tap_step(None, times, t.now_ms, t.pointer_type, t.mouse_btns) == fresh_run(
            t.now_ms,
            t.pointer_type,
            t.mouse_btns,
        ));
    } else {
        lemma_qualifying_prefix(times, taps, k - 1);
        assert(prefix.drop_last() =~= taps.take(k - 1));
        let prev = run_state(times, None, taps.take(k - 1));
        assert(continues_run(
            prev.unwrap(),
            times,
            t.now_ms,
            t.pointer_type,
            t.mouse_btns,
        ));
        let stepped = tap_step(prev, times, t.now_ms, t.pointer_type, t.mouse_btns);
        assert(stepped.tap_times == k as u8);
        assert(fire_count(times, None, prefix) == fire_count(times, None, taps.take(k - 1)) + if stepped.tap_times == times {
            1nat
        } else {
            0nat
        });
    }
}

/// Law: a run of exactly N qualifying taps — identical identity, each
/// arriving within the 250 ms window anchored at the first — makes the
/// recognizer fire exactly once, at the N-th tap and never before.
pub proof fn lemma_qualifying_run_fires_once(times: u8, taps: Seq<TapSample>)
    requires
        1 <= times,
        taps.len() == times,
        qualifying_run(taps),
    ensures
        fire_count(times, None, taps) == 1,
        forall|k: int| 0 <= k < taps.len() ==> fire_count(times, None, taps.take(k)) == 0,
{
    lemma_qualifying_prefix(times, taps, times as int);
    assert(taps.take(times as int) =~= taps);
    assert forall|k: int| 0 <= k < taps.len() implies fire_count(times, None, taps.take(k))
        == 0 by {
        if k == 0 {
            assert(taps.take(0).len() == 0);
        } else {
            lemma_qualifying_prefix(times, taps, k);
        }
    }
}

/// Law: if the N-th tap of an otherwise-qualifying run arrives 250 ms or
/// more after the first, the run never fires; the violating tap instead
/// starts a brand-new run of count one, anchored at itself.
pub proof fn lemma_window_exceeded_never_fires(times: u8, taps: Seq<TapSample>)
    requires
        2 <= times,
        taps.len() == times,
        qualifying_run(taps.drop_last()),
        forall|j: int|
            0 <= j < taps.len() ==> #[trigger] taps[j].pointer_type == taps[0].pointer_type
                && taps[j].mouse_btns == taps[0].mouse_btns,
        taps[0].now_ms <= taps.last().now_ms,
        taps.last().now_ms - taps[0].now_ms >= TAP_WINDOW_MS,
    ensures
        fire_count(times, None, taps) == 0,
        run_state(times, None, taps) == Some(
            fresh_run(taps.last().now_ms, taps.last().pointer_type, taps.last().mouse_btns),
        ),
{
    let head = taps.drop_last();
    assert(head[0] == taps[0]);
    lemma_qualifying_prefix(times, head, times - 1);
    assert(head.take(times - 1) =~= head);
    let prev = run_state(times, None, head);
    let t = taps.last();
    assert(!continues_run(prev.unwrap(), times, t.now_ms, t.pointer_type, t.mouse_btns));
    assert(tap_step(prev, times, t.now_ms, t.pointer_type, t.mouse_btns) == fresh_run(
        t.now_ms,
        t.pointer_type,
        t.mouse_btns,
    ));
}

/// Law: once a run has reached the target count, the next tap never
/// retriggers the gesture — even inside the window and with matching
/// identity, it falls into the saturated branch and starts a fresh run of
/// count one, anchored at itself.
pub proof fn lemma_saturated_run_restarts(
    times: u8,
    info: TapInfo,
    now_ms: u64,
    pt: PointerType,
    btns: MouseButtons,
)
    requires
        info.tap_times >= times,
    ensures
        tap_step(Some(info), times, now_ms, pt, btns) == fresh_run(now_ms, pt, btns),
{
}

/// Law: a tap whose pointer type or exact button set differs from the
/// in-progress run never contributes to that run's count; it starts a
/// brand-new run of count one, anchored at itself.
pub proof fn lemma_identity_mismatch_starts_fresh(
    times: u8,
    info: TapInfo,
    now_ms: u64,
    pt: PointerType,
    btns: MouseButtons,
)
    requires
        info.pointer_type != pt || info.mouse_btns != btns,
    ensures
        tap_step(Some(info), times, now_ms, pt, btns) == fresh_run(now_ms, pt, btns),
{
}

} // verus!
