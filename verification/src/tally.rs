//! The report of a dispatch: how many targets ended in which way.

use vstd::prelude::*;
use crate::dispatch::Slot;
use crate::google_sheets::DeliveryOutcome;

verus! {

/// The ways in which a target can stand or end, as far as the report tells
/// them apart. A rejected request and an unreachable sink both count as a
/// failed delivery.
#[derive(Clone, Copy, Debug, PartialEq, Eq, Structural)]
pub enum SlotKind {
    Pending,
    InFlight,
    Delivered,
    Absent,
    ExtractionFailed,
    DeliveryFailed,
}

/// The kind that a slot is counted under.
pub open spec fn kind_of(slot: Slot) -> SlotKind {
    match slot {
        Slot::Pending => SlotKind::Pending,
        Slot::InFlight => SlotKind::InFlight,
        Slot::Settled(DeliveryOutcome::Delivered) => SlotKind::Delivered,
        Slot::Settled(DeliveryOutcome::Absent) => SlotKind::Absent,
        Slot::Settled(DeliveryOutcome::ExtractionFailed) => SlotKind::ExtractionFailed,
        Slot::Settled(DeliveryOutcome::Rejected { .. }) => SlotKind::DeliveryFailed,
        Slot::Settled(DeliveryOutcome::Unreachable) => SlotKind::DeliveryFailed,
    }
}

/// The number of slots of a kind.
pub open spec fn count_kind(slots: Seq<Slot>, kind: SlotKind) -> nat
    decreases slots.len(),
{
    if slots.len() == 0 {
        0
    } else {
        count_kind(slots.drop_last(), kind) + if kind_of(slots.last()) == kind {
            1nat
        } else {
            0nat
        }
    }
}

/// The number of requests that were handed out for a list of slots: one for
/// every target that is in flight or whose delivery succeeded or failed.
pub open spec fn count_issued(slots: Seq<Slot>) -> nat {
    count_kind(slots, SlotKind::InFlight) + count_kind(slots, SlotKind::Delivered) + count_kind(
        slots,
        SlotKind::DeliveryFailed,
    )
}

/// How many targets of a list ended in which way.
#[derive(Clone, Copy, Debug, PartialEq, Eq, Structural)]
pub struct Tally {
    /// Targets whose value the sink accepted.
    pub delivered: usize,
    /// Targets for which the document holds no balance.
    pub absent: usize,
    /// Targets whose value could not be had: a balance that could not be
    /// extracted, a time that could not be read.
    pub extraction_failures: usize,
    /// Targets whose request was rejected or never answered.
    pub delivery_failures: usize,
    /// Targets whose request is out and not answered yet.
    pub in_flight: usize,
    /// Targets for which nothing was done yet.
    pub pending: usize,
}

impl Tally {
    /// Whether this tally counts `slots`.
    pub open spec fn counts(self, slots: Seq<Slot>) -> bool {
        &&& self.delivered == count_kind(slots, SlotKind::Delivered)
        &&& self.absent == count_kind(slots, SlotKind::Absent)
        &&& self.extraction_failures == count_kind(slots, SlotKind::ExtractionFailed)
        &&& self.delivery_failures == count_kind(slots, SlotKind::DeliveryFailed)
        &&& self.in_flight == count_kind(slots, SlotKind::InFlight)
        &&& self.pending == count_kind(slots, SlotKind::Pending)
    }

    /// The number of targets counted.
    pub open spec fn total(self) -> int {
        self.delivered + self.absent + self.extraction_failures + self.delivery_failures
            + self.in_flight + self.pending
    }

    /// The number of requests that were handed out.
    pub fn issued(&self) -> (issued: usize)
        requires
            self.total() <= usize::MAX,
        ensures
            issued == self.delivered + self.delivery_failures + self.in_flight,
    {
        self.delivered + self.delivery_failures + self.in_flight
    }

    /// The number of targets that did not end in a delivery or an
    /// absence: failed extractions and failed deliveries.
    pub fn failures(&self) -> (failures: usize)
        requires
            self.total() <= usize::MAX,
        ensures
            failures == self.extraction_failures + self.delivery_failures,
    {
        self.extraction_failures + self.delivery_failures
    }
}

/// Every slot is counted under exactly one kind: the six counts add up to
/// the number of slots.
pub proof fn lemma_counts_add_up(slots: Seq<Slot>)
    ensures
        count_kind(slots, SlotKind::Delivered) + count_kind(slots, SlotKind::Absent) + count_kind(
            slots,
            SlotKind::ExtractionFailed,
        ) + count_kind(slots, SlotKind::DeliveryFailed) + count_kind(slots, SlotKind::InFlight)
            + count_kind(slots, SlotKind::Pending) == slots.len(),
    decreases slots.len(),
{
    if slots.len() > 0 {
        lemma_counts_add_up(slots.drop_last());
    }
}

/// A kind that no slot has counts zero.
pub proof fn lemma_count_none(slots: Seq<Slot>, kind: SlotKind)
    requires
        forall|i: int| 0 <= i < slots.len() ==> kind_of(#[trigger] slots[i]) != kind,
    ensures
        count_kind(slots, kind) == 0,
    decreases slots.len(),
{
    if slots.len() > 0 {
        let front = slots.drop_last();
        assert forall|i: int| 0 <= i < front.len() implies kind_of(#[trigger] front[i])
            != kind by {
            assert(front[i] == slots[i]);
        }
        lemma_count_none(front, kind);
    }
}

/// When every balance was either found or absent, one request is handed out
/// for each balance that was found: with `absent` absences among the targets,
/// all the others have a request out or answered.
pub proof fn lemma_issued_is_all_but_absent(slots: Seq<Slot>, absent: nat)
    requires
        forall|i: int|
            0 <= i < slots.len() ==> kind_of(#[trigger] slots[i]) != SlotKind::Pending && kind_of(
                slots[i],
            ) != SlotKind::ExtractionFailed,
        count_kind(slots, SlotKind::Absent) == absent,
    ensures
        absent <= slots.len(),
        count_issued(slots) == slots.len() - absent,
{
    lemma_counts_add_up(slots);
    lemma_count_none(slots, SlotKind::Pending);
    lemma_count_none(slots, SlotKind::ExtractionFailed);
}

/// When every target ended in a delivery or an absence, the deliveries are
/// all the targets but the absent ones, in whatever order the targets were
/// settled.
pub proof fn lemma_delivered_is_all_but_absent(slots: Seq<Slot>, absent: nat)
    requires
        forall|i: int|
            0 <= i < slots.len() ==> kind_of(#[trigger] slots[i]) == SlotKind::Delivered || kind_of(
                slots[i],
            ) == SlotKind::Absent,
        count_kind(slots, SlotKind::Absent) == absent,
    ensures
        absent <= slots.len(),
        count_kind(slots, SlotKind::Delivered) == slots.len() - absent,
{
    lemma_counts_add_up(slots);
    lemma_count_none(slots, SlotKind::Pending);
    lemma_count_none(slots, SlotKind::ExtractionFailed);
    lemma_count_none(slots, SlotKind::InFlight);
    lemma_count_none(slots, SlotKind::DeliveryFailed);
}

/// Taking a slot out of a list lowers the count of its kind by one.
proof fn lemma_count_remove(slots: Seq<Slot>, i: int, kind: SlotKind)
    requires
        0 <= i < slots.len(),
    ensures
        count_kind(slots, kind) == count_kind(slots.remove(i), kind) + if kind_of(slots[i])
            == kind {
            1nat
        } else {
            0nat
        },
    decreases slots.len(),
{
    if i == slots.len() - 1 {
        assert(slots.remove(i) =~= slots.drop_last());
    } else {
        lemma_count_remove(slots.drop_last(), i, kind);
        assert(slots.remove(i).drop_last() =~= slots.drop_last().remove(i));
        assert(slots.remove(i).last() == slots.last());
    }
}

/// The counts do not depend on the order of the slots: two lists that hold
/// the same slots, each as often as the other, count the same.
pub proof fn lemma_tally_ignores_order(a: Seq<Slot>, b: Seq<Slot>, kind: SlotKind)
    requires
        a.to_multiset() == b.to_multiset(),
    ensures
        count_kind(a, kind) == count_kind(b, kind),
    decreases a.len(),
{
    broadcast use vstd::multiset::group_multiset_axioms;

    vstd::seq_lib::to_multiset_len(a);
    vstd::seq_lib::to_multiset_len(b);
    if a.len() > 0 {
        let x = a.last();
        let front = a.drop_last();
        assert(a =~= front.push(x));
        vstd::seq_lib::to_multiset_build(front, x);
        vstd::seq_lib::to_multiset_contains(b, x);
        assert(b.to_multiset().count(x) > 0);
        let j = choose|j: int| 0 <= j < b.len() && b[j] == x;
        vstd::seq_lib::to_multiset_remove(b, j);
        assert(front.to_multiset() =~= b.remove(j).to_multiset());
        lemma_tally_ignores_order(front, b.remove(j), kind);
        lemma_count_remove(b, j, kind);
    }
}

/// The kind that a slot is counted under.
pub fn slot_kind(slot: Slot) -> (kind: SlotKind)
    ensures
        kind == kind_of(slot),
{
    match slot {
        Slot::Pending => SlotKind::Pending,
        Slot::InFlight => SlotKind::InFlight,
        Slot::Settled(outcome) => match outcome {
            DeliveryOutcome::Delivered => SlotKind::Delivered,
            DeliveryOutcome::Absent => SlotKind::Absent,
            DeliveryOutcome::ExtractionFailed => SlotKind::ExtractionFailed,
            DeliveryOutcome::Rejected { .. } => SlotKind::DeliveryFailed,
            DeliveryOutcome::Unreachable => SlotKind::DeliveryFailed,
        },
    }
}

/// Counts a list of slots by kind.
pub fn tally(slots: &Vec<Slot>) -> (tally: Tally)
    ensures
        tally.counts(slots@),
        tally.total() == slots@.len(),
        tally.total() <= usize::MAX,
{
    let mut t = Tally {
        delivered: 0,
        absent: 0,
        extraction_failures: 0,
        delivery_failures: 0,
        in_flight: 0,
        pending: 0,
    };
    let mut i: usize = 0;
    while i < slots.len()
        invariant
            i <= slots.len(),
            t.counts(slots@.take(i as int)),
            t.total() == i,
        decreases slots.len() - i,
    {
        proof {
            let longer = slots@.take(i + 1);
            assert(longer.drop_last() =~= slots@.take(i as int));
            assert(longer.last() == slots@[i as int]);
        }
        match slot_kind(slots[i]) {
            SlotKind::Pending => {
                t.pending = t.pending + 1;
            },
            SlotKind::InFlight => {
                t.in_flight = t.in_flight + 1;
            },
            SlotKind::Delivered => {
                t.delivered = t.delivered + 1;
            },
            SlotKind::Absent => {
                t.absent = t.absent + 1;
            },
            SlotKind::ExtractionFailed => {
                t.extraction_failures = t.extraction_failures + 1;
            },
            SlotKind::DeliveryFailed => {
                t.delivery_failures = t.delivery_failures + 1;
            },
        }
        i = i + 1;
    }
    proof {
        assert(slots@.take(i as int) =~= slots@);
    }
    t
}

} // verus!
