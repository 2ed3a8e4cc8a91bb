//! The per-widget broadcast channel: a registry of filtered subscriptions
//! and the delivery plan it yields for each dispatch cycle.
//!
//! Subscriber callbacks themselves are arbitrary widget code; the driver that
//! owns them walks the plan (or the cursor, when callbacks may change the
//! registry mid-cycle) and lends the single `PointerEvent` of the cycle to
//! one listener at a time, so at most one mutable view of the event is ever
//! live.

use vstd::prelude::*;

verus! {

/// The kind of a pointer event; drives filtering in the dispatcher.
#[derive(Clone, Copy, Debug, PartialEq, Eq, Structural)]
pub enum PointerEventType {
    Down,
    Move,
    Up,
    Tap,
    Cancel,
    Enter,
    Leave,
}

/// What one subscription listens to.
#[derive(Clone, Copy, Debug, PartialEq, Eq, Structural)]
pub enum EventFilter {
    /// Deliver only events of exactly this kind.
    Kind(PointerEventType),
    /// Deliver the raw stream: every event, whatever its kind.
    Any,
}

/// Whether a filter lets an event of kind `kind` through.
pub open spec fn filter_matches(f: EventFilter, kind: PointerEventType) -> bool {
    match f {
        EventFilter::Kind(k) => k == kind,
        EventFilter::Any => true,
    }
}

impl EventFilter {
    /// Whether this filter lets an event of kind `kind` through.
    pub fn matches(&self, kind: PointerEventType) -> (r: bool)
        ensures
            r == filter_matches(*self, kind),
    {
        match self {
            EventFilter::Kind(k) => *k == kind,
            EventFilter::Any => true,
        }
    }
}

/// One registration in the channel: its filter, and whether it is still
/// live. Entries are never removed, only deactivated, so an entry's index
/// identifies the registration for its whole lifetime.
#[derive(Clone, Copy, Debug, PartialEq, Eq, Structural)]
pub struct SubEntry {
    /// What the subscriber asked to receive.
    pub filter: EventFilter,
    /// False once the subscription was cancelled.
    pub active: bool,
}

/// `s` with its subscription cancelled: the effect of `unsubscribe` on one
/// entry.
pub open spec fn deactivated(s: SubEntry) -> SubEntry {
    SubEntry { active: false, ..s }
}

/// Whether an event of kind `kind` is delivered to the subscription `s`.
pub open spec fn deliverable(s: SubEntry, kind: PointerEventType) -> bool {
    s.active && filter_matches(s.filter, kind)
}

/// The delivery plan of one dispatch cycle: the indices of the subscriptions
/// that receive an event of kind `kind`, in registration order.
pub open spec fn delivery_plan(subs: Seq<SubEntry>, kind: PointerEventType) -> Seq<usize>
    decreases subs.len(),
{
    if subs.len() == 0 {
        Seq::empty()
    } else {
        let prefix = delivery_plan(subs.drop_last(), kind);
        if deliverable(subs.last(), kind) {
            prefix.push((subs.len() - 1) as usize)
        } else {
            prefix
        }
    }
}

/// A live registration's cancelable handle. The registering caller owns it;
/// the channel keeps only the entry it points at.
#[derive(Clone, Copy, Debug, PartialEq, Eq, Structural)]
pub struct SubscriptionHandle {
    /// Index of the registration in the channel that issued the handle.
    pub index: usize,
}

/// The position of an in-flight dispatch cycle: the kind being published and
/// the next registry index to examine. Taking listeners one at a time from
/// the live registry lets a cancellation during the cycle take effect at
/// once.
#[derive(Clone, Copy, Debug, PartialEq, Eq, Structural)]
pub struct DispatchCycle {
    /// The kind this cycle publishes.
    pub kind: PointerEventType,
    /// The lowest registry index not yet examined.
    pub next: usize,
}

/// An attribute that routes pointer events on one widget to its subscribers.
pub struct PointerAttr {
    subs: Vec<SubEntry>,
}

impl PointerAttr {
    /// The registrations made on this widget so far, in registration order,
    /// cancelled ones included.
    pub closed spec fn entries(&self) -> Seq<SubEntry> {
        self.subs@
    }

    /// A channel with no subscriptions.
    pub fn new() -> (r: Self)
        ensures
            r.entries() == Seq::<SubEntry>::empty(),
    {
        PointerAttr { subs: Vec::new() }
    }

    fn register(&mut self, filter: EventFilter) -> (r: SubscriptionHandle)
        ensures
            final(self).entries() == old(self).entries().push((SubEntry { filter, active: true })),
            r.index as int == old(self).entries().len(),
    {
        let handle = SubscriptionHandle { index: self.subs.len() };
        self.subs.push(SubEntry { filter, active: true });
        handle
    }

    /// Registers a listener for exactly the events of kind `event_type`; the
    /// subscription never sees an event of a different kind. Returns the
    /// handle that cancels it.
    pub fn listen_on(&mut self, event_type: PointerEventType) -> (r: SubscriptionHandle)
        ensures
            final(self).entries() == old(self).entries().push(
                (SubEntry { filter: EventFilter::Kind(event_type), active: true }),
            ),
            r.index as int == old(self).entries().len(),
    {
        self.register(EventFilter::Kind(event_type))
    }

    /// Registers a listener on the raw, unfiltered `(kind, event)` stream,
    /// for derived recognizers built on top of the channel. Returns the
    /// handle that cancels it.
    pub fn pointer_observable(&mut self) -> (r: SubscriptionHandle)
        ensures
            final(self).entries() == old(self).entries().push(
                (SubEntry { filter: EventFilter::Any, active: true }),
            ),
            r.index as int == old(self).entries().len(),
    {
        self.register(EventFilter::Any)
    }

    /// Cancels the subscription behind `handle`: immediate, idempotent, and
    /// never failing. Every other registration is left as it was.
    pub fn unsubscribe(&mut self, handle: &SubscriptionHandle)
        ensures
            handle.index < old(self).entries().len() ==> final(self).entries()
                == old(self).entries().update(
                handle.index as int,
                deactivated(old(self).entries()[handle.index as int]),
            ),
            handle.index >= old(self).entries().len() ==> final(self).entries()
                == old(self).entries(),
    {
        if handle.index < self.subs.len() {
            let filter = self.subs[handle.index].filter;
            self.subs.set(handle.index, SubEntry { filter, active: false });
        }
    }

    /// Whether the subscription behind `handle` is still live.
    pub fn is_active(&self, handle: &SubscriptionHandle) -> (r: bool)
        ensures
            r == (handle.index < self.entries().len()
                && self.entries()[handle.index as int].active),
    {
        handle.index < self.subs.len() && self.subs[handle.index].active
    }

    /// Publishes one event of kind `event_type`: returns the delivery plan,
    /// the indices of every live subscription whose filter matches, in
    /// registration order. The driver lends the cycle's single event to each
    /// listed subscriber in turn — one exclusive mutable view at a time, so
    /// mutations one listener makes are seen by the later ones.
    ///
    /// The plan is a snapshot: it is exact for drivers whose callbacks leave
    /// the registry alone during the cycle. A driver whose callbacks may
    /// subscribe or unsubscribe mid-cycle walks the cursor of
    /// [`Self::begin_dispatch`] instead.
    pub fn dispatch_event(&self, event_type: PointerEventType) -> (plan: Vec<usize>)
        ensures
            plan@ == delivery_plan(self.entries(), event_type),
    {
        let mut plan: Vec<usize> = Vec::new();
        let n = self.subs.len();
        let mut i: usize = 0;
        while i < n
            invariant
                n == self.entries().len(),
                i <= n,
                plan@ == delivery_plan(self.entries().take(i as int), event_type),
            decreases n - i,
        {
            proof {
                let taken = self.entries().take(i + 1);
                assert(taken.drop_last() =~= self.entries().take(i as int));
                assert(taken.last() == self.entries()[i as int]);
            }
            let entry = self.subs[i];
            if entry.active && entry.filter.matches(event_type) {
                plan.push(i);
            }
            i = i + 1;
        }
        proof {
            assert(self.entries().take(n as int) =~= self.entries());
        }
        plan
    }

    /// Opens a dispatch cycle for events of kind `kind`, positioned before
    /// the first registration.
    pub fn begin_dispatch(&self, kind: PointerEventType) -> (r: DispatchCycle)
        ensures
            r.kind == kind,
            r.next == 0,
    {
        DispatchCycle { kind, next: 0 }
    }

    /// Yields the next listener of an in-flight cycle: the first live,
    /// matching subscription at or after the cursor, advancing the cursor
    /// past it; `None` when no such subscription is left. Reading the live
    /// registry at each step means a subscription cancelled mid-cycle is
    /// never yielded afterwards, while subscriptions are never skipped nor
    /// yielded twice.
    pub fn next_listener(&self, cycle: &mut DispatchCycle) -> (r: Option<usize>)
        ensures
            final(cycle).kind == old(cycle).kind,
            final(cycle).next >= old(cycle).next,
            match r {
                Some(i) => {
                    &&& old(cycle).next <= i < self.entries().len()
                    &&& deliverable(self.entries()[i as int], old(cycle).kind)
                    &&& forall|j: int|
                        old(cycle).next <= j < i ==> !deliverable(
                            self.entries()[j],
                            old(cycle).kind,
                        )
                    &&& final(cycle).next == i + 1
                },
                None => {
                    &&& forall|j: int|
                        old(cycle).next <= j < self.entries().len() ==> !deliverable(
                            self.entries()[j],
                            old(cycle).kind,
                        )
                    &&& final(cycle).next >= self.entries().len()
                },
            },
    {
        let n = self.subs.len();
        match self.scan(cycle.kind, cycle.next) {
            Some(i) => {
                cycle.next = i + 1;
                Some(i)
            },
            None => {
                if cycle.next < n {
                    cycle.next = n;
                }
                None
            },
        }
    }

    /// The first live, matching registration at or after `start`.
    fn scan(&self, kind: PointerEventType, start: usize) -> (r: Option<usize>)
        ensures
            match r {
                Some(i) => {
                    &&& start <= i < self.entries().len()
                    &&& deliverable(self.entries()[i as int], kind)
                    &&& forall|j: int|
                        start <= j < i ==> !deliverable(self.entries()[j], kind)
                },
                None => forall|j: int|
                    start <= j < self.entries().len() ==> !deliverable(self.entries()[j], kind),
            },
    {
        let n = self.subs.len();
        let mut i = start;
        while i < n
            invariant
                n == self.entries().len(),
                start <= i,
                forall|j: int| start <= j < i ==> !deliverable(self.entries()[j], kind),
            decreases n - i,
        {
            let entry = self.subs[i];
            if entry.active && entry.filter.matches(kind) {
                return Some(i);
            }
            i = i + 1;
        }
        None
    }
}

/// Law: the delivery plan of a dispatch cycle holds an index exactly when
/// that registration is live and its filter matches the published kind — no
/// live matching listener is skipped, and no other listener is invoked.
pub proof fn lemma_plan_exact(subs: Seq<SubEntry>, kind: PointerEventType, i: int)
    requires
        subs.len() <= usize::MAX,
        0 <= i < subs.len(),
    ensures
        delivery_plan(subs, kind).contains(i as usize) <==> deliverable(subs[i], kind),
    decreases subs.len(),
{
    let plan = delivery_plan(subs, kind);
    let prefix = delivery_plan(subs.drop_last(), kind);
    lemma_plan_in_range(subs.drop_last(), kind);
    if i == subs.len() - 1 {
        if deliverable(subs[i], kind) {
            assert(plan.last() == i as usize);
            assert(plan.contains(i as usize));
        } else {
            assert(plan == prefix);
            assert forall|k: int| 0 <= k < prefix.len() implies prefix[k] != i as usize by {
                assert(prefix[k] < subs.drop_last().len());
            }
        }
    } else {
        lemma_plan_exact(subs.drop_last(), kind, i);
        assert(subs.drop_last()[i] == subs[i]);
        if deliverable(subs[i], kind) {
            let k = choose|k: int| 0 <= k < prefix.len() && prefix[k] == i as usize;
            if deliverable(subs.last(), kind) {
                assert(plan[k] == i as usize);
            }
            assert(plan.contains(i as usize));
        } else {
            assert forall|k: int| 0 <= k < plan.len() implies plan[k] != i as usize by {
                if k < prefix.len() {
                    assert(plan[k] == prefix[k]);
                }
            }
        }
    }
}

/// Every index a delivery plan holds is an index into the registry.
pub proof fn lemma_plan_in_range(subs: Seq<SubEntry>, kind: PointerEventType)
    ensures
        forall|k: int| 0 <= k < delivery_plan(subs, kind).len()
            ==> delivery_plan(subs, kind)[k] < subs.len(),
    decreases subs.len(),
{
    if subs.len() > 0 {
        lemma_plan_in_range(subs.drop_last(), kind);
        let plan = delivery_plan(subs, kind);
        let prefix = delivery_plan(subs.drop_last(), kind);
        assert forall|k: int| 0 <= k < plan.len() implies plan[k] < subs.len() by {
            if k < prefix.len() {
                assert(plan[k] == prefix[k]);
                assert(prefix[k] < subs.drop_last().len());
            }
        }
    }
}

/// Law: a delivery plan visits indices in strictly increasing registration
/// order — no listener is invoked twice in one cycle.
pub proof fn lemma_plan_ordered(subs: Seq<SubEntry>, kind: PointerEventType)
    requires
        subs.len() <= usize::MAX,
    ensures
        forall|k1: int, k2: int|
            0 <= k1 < k2 < delivery_plan(subs, kind).len() ==> delivery_plan(subs, kind)[k1]
                < delivery_plan(subs, kind)[k2],
    decreases subs.len(),
{
    if subs.len() > 0 {
        lemma_plan_ordered(subs.drop_last(), kind);
        lemma_plan_in_range(subs.drop_last(), kind);
        let plan = delivery_plan(subs, kind);
        let prefix = delivery_plan(subs.drop_last(), kind);
        assert forall|k1: int, k2: int| 0 <= k1 < k2 < plan.len() implies plan[k1] < plan[k2] by {
            if k2 < prefix.len() {
                assert(plan[k1] == prefix[k1] && plan[k2] == prefix[k2]);
            } else {
                assert(plan[k1] == prefix[k1]);
                assert(prefix[k1] < subs.drop_last().len());
            }
        }
    }
}

/// Law: cancelling a subscription stops its deliveries at once. In the
/// registry as `unsubscribe` leaves it, no dispatch cycle's delivery plan
/// holds the cancelled index any more, whatever the published kind.
pub proof fn lemma_unsubscribe_stops_delivery(
    subs: Seq<SubEntry>,
    i: int,
    kind: PointerEventType,
)
    requires
        subs.len() <= usize::MAX,
        0 <= i < subs.len(),
    ensures
        !delivery_plan(subs.update(i, deactivated(subs[i])), kind).contains(i as usize),
{
    let after = subs.update(i, deactivated(subs[i]));
    lemma_plan_exact(after, kind, i);
}

} // verus!
