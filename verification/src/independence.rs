//! Why targets do not disturb each other.
//!
//! Every report to the dispatcher is about one target. This module proves
//! that a report changes the slot of its own target only, that reports about
//! different targets can be made in either order with the same result, and
//! that a failed delivery for one target leaves every other target free to
//! complete.

use vstd::prelude::*;
use crate::balance::Balance;
use crate::dispatch::{
    all_issued, slot_after_extraction, timestamp_slot, DispatchState, Extraction, Report, Slot,
};
use crate::google_sheets::{is_success, outcome_of, DeliveryOutcome, Reply};
use crate::tally::{
    count_kind, kind_of, lemma_count_none, lemma_delivered_is_all_but_absent, SlotKind,
};

verus! {

/// Every report keeps the state valid, whether it is taken or refused.
pub proof fn lemma_report_keeps_valid(state: DispatchState, report: Report)
    requires
        state.valid(),
    ensures
        state.after(report).valid(),
{
    let next = state.after(report);
    if state.refusal(report) is None {
        match report {
            Report::Extracted { index, extraction } => {
                assert(!all_issued(state.balances));
            },
            Report::BalanceReplied { index, reply } => {
                if all_issued(state.balances) {
                    assert forall|i: int| 0 <= i < next.balances.len() implies (
                    #[trigger] next.balances[i]) != Slot::Pending by {
                        if i != index {
                            assert(state.balances[i] != Slot::Pending);
                        }
                    }
                }
            },
            Report::Stamped { index } => {},
            Report::StampFailed { index } => {},
            Report::TimestampReplied { index, reply } => {
                assert(state.timestamps[index] != Slot::Pending);
            },
        }
    }
}

/// A report changes the slot of its own target and no other: the targets
/// and the sink settings stay, every other balance slot stays, and every
/// other timestamp slot stays.
pub proof fn lemma_report_touches_one_slot(state: DispatchState, report: Report)
    requires
        state.valid(),
    ensures
        state.after(report).sink == state.sink,
        state.after(report).sync_targets == state.sync_targets,
        state.after(report).timestamp_targets == state.timestamp_targets,
        state.after(report).balances.len() == state.balances.len(),
        state.after(report).timestamps.len() == state.timestamps.len(),
        forall|i: int|
            0 <= i < state.balances.len() && !(report.about_balance() && i == report.index())
                ==> #[trigger] state.after(report).balances[i] == state.balances[i],
        forall|k: int|
            0 <= k < state.timestamps.len() && !(!report.about_balance() && k == report.index())
                ==> #[trigger] state.after(report).timestamps[k] == state.timestamps[k],
{
}

/// Reports about different targets can be made in either order: if both
/// are taken in a state, each is still taken after the other, and the two
/// orders lead to the same state.
pub proof fn lemma_reports_commute(state: DispatchState, first: Report, second: Report)
    requires
        state.valid(),
        first.other_target(second),
        state.refusal(first) is None,
        state.refusal(second) is None,
    ensures
        state.after(first).refusal(second) is None,
        state.after(second).refusal(first) is None,
        state.after(first).after(second) == state.after(second).after(first),
{
    let a = state.after(first);
    let b = state.after(second);
    lemma_report_keeps_valid(state, first);
    lemma_report_keeps_valid(state, second);
    if first is Stamped || second is Stamped || first is StampFailed || second is StampFailed {
        assert(all_issued(state.balances));
        assert(!(first is Extracted) && !(second is Extracted)) by {
            if first is Extracted {
                assert(state.balances[first.index()] == Slot::Pending);
            }
            if second is Extracted {
                assert(state.balances[second.index()] == Slot::Pending);
            }
        }
        assert(all_issued(a.balances)) by {
            assert forall|i: int| 0 <= i < a.balances.len() implies (#[trigger] a.balances[i])
                != Slot::Pending by {
                if !(first.about_balance() && i == first.index()) {
                    assert(state.balances[i] != Slot::Pending);
                }
            }
        }
        assert(all_issued(b.balances)) by {
            assert forall|i: int| 0 <= i < b.balances.len() implies (#[trigger] b.balances[i])
                != Slot::Pending by {
                if !(second.about_balance() && i == second.index()) {
                    assert(state.balances[i] != Slot::Pending);
                }
            }
        }
    }
    let ab = a.after(second);
    let ba = b.after(first);
    assert(ab.balances =~= ba.balances);
    assert(ab.timestamps =~= ba.timestamps);
}

/// A delivery that the sink rejects settles its own target as rejected and
/// leaves every other target free to complete: the reply for any other
/// target in flight is still taken, and settles that target by what the
/// sink answered for it.
pub proof fn lemma_rejection_is_isolated(
    state: DispatchState,
    failing: int,
    status: u16,
    other: int,
    reply: Reply,
)
    requires
        state.valid(),
        failing != other,
        state.balance_reply_refusal(failing) is None,
        state.balance_reply_refusal(other) is None,
        !is_success(status),
    ensures
        ({
            let rejected = state.after_balance_reply(failing, Reply::Status(status));
            &&& rejected.balances[failing] == Slot::Settled(DeliveryOutcome::Rejected { status })
            &&& rejected.balance_reply_refusal(other) is None
            &&& rejected.after_balance_reply(other, reply).balances[other] == Slot::Settled(
                outcome_of(reply),
            )
            &&& rejected.after_balance_reply(other, reply).balances[failing] == Slot::Settled(
                DeliveryOutcome::Rejected { status },
            )
        }),
{
}

/// A target is settled by its own extraction and its own reply alone: once
/// the extraction for a pending target found a balance and the sink's reply
/// for it came in, its slot holds the outcome of that reply, whatever was
/// reported for other targets in between.
pub proof fn lemma_settled_by_own_reports(
    state: DispatchState,
    index: int,
    balance: Balance,
    between: Report,
    reply: Reply,
)
    requires
        state.valid(),
        state.extraction_refusal(index) is None,
        between.other_target(Report::Extracted { index, extraction: Extraction::Found(balance) }),
    ensures
        state.after_extraction(index, Extraction::Found(balance)).after(
            between,
        ).balance_reply_refusal(index) is None,
        state.after_extraction(index, Extraction::Found(balance)).after(
            between,
        ).after_balance_reply(index, reply).balances[index] == Slot::Settled(outcome_of(reply)),
{
    let found = Report::Extracted { index, extraction: Extraction::Found(balance) };
    let issued = state.after_extraction(index, Extraction::Found(balance));
    lemma_report_keeps_valid(state, found);
    assert(issued == state.after(found));
    lemma_report_touches_one_slot(issued, between);
}

/// What one report does to the slot of the balance target that it is about,
/// seen from that target alone: an extraction moves a pending slot on, a
/// reply settles a slot in flight, and every other report leaves it.
pub open spec fn balance_slot_step(slot: Slot, report: Report) -> Slot {
    match report {
        Report::Extracted { extraction, .. } => if slot == Slot::Pending {
            slot_after_extraction(extraction)
        } else {
            slot
        },
        Report::BalanceReplied { reply, .. } => if slot == Slot::InFlight {
            Slot::Settled(outcome_of(reply))
        } else {
            slot
        },
        _ => slot,
    }
}

/// The slot of balance target `index` after a sequence of reports, computed
/// from the reports about that target alone, in the order in which they were
/// made.
pub open spec fn balance_slot_after(slot: Slot, reports: Seq<Report>, index: int) -> Slot
    decreases reports.len(),
{
    if reports.len() == 0 {
        slot
    } else {
        let before = balance_slot_after(slot, reports.drop_last(), index);
        let last = reports.last();
        if last.about_balance() && last.index() == index {
            balance_slot_step(before, last)
        } else {
            before
        }
    }
}

impl DispatchState {
    /// The state after a sequence of reports, made one after the other.
    pub open spec fn after_all(self, reports: Seq<Report>) -> DispatchState
        decreases reports.len(),
    {
        if reports.len() == 0 {
            self
        } else {
            self.after_all(reports.drop_last()).after(reports.last())
        }
    }
}

/// A balance target is settled by the reports about itself alone. Whatever
/// is reported for other targets, in whatever order and with whatever
/// outcome, the slot of target `index` after all the reports is what the
/// reports about `index` make of it.
pub proof fn lemma_slot_depends_on_own_reports(
    state: DispatchState,
    reports: Seq<Report>,
    index: int,
)
    requires
        state.valid(),
        0 <= index < state.balances.len(),
    ensures
        state.after_all(reports).valid(),
        state.after_all(reports).balances.len() == state.balances.len(),
        state.after_all(reports).balances[index] == balance_slot_after(
            state.balances[index],
            reports,
            index,
        ),
    decreases reports.len(),
{
    if reports.len() > 0 {
        let before = state.after_all(reports.drop_last());
        lemma_slot_depends_on_own_reports(state, reports.drop_last(), index);
        lemma_report_keeps_valid(before, reports.last());
        lemma_report_touches_one_slot(before, reports.last());
    }
}

/// Of the balance targets of a dispatch, those that are not absent are
/// delivered: when every target ended in a delivery or an absence and
/// `absent` of them are absent, the deliveries are all the targets but
/// `absent`.
pub proof fn lemma_delivers_all_but_absent(state: DispatchState, absent: nat)
    requires
        state.valid(),
        forall|i: int|
            0 <= i < state.balances.len() ==> #[trigger] state.balances[i] == Slot::Settled(
                DeliveryOutcome::Delivered,
            ) || state.balances[i] == Slot::Settled(DeliveryOutcome::Absent),
        count_kind(state.balances, SlotKind::Absent) == absent,
    ensures
        absent <= state.sync_targets.len(),
        count_kind(state.balances, SlotKind::Delivered) == state.sync_targets.len() - absent,
{
    assert forall|i: int| 0 <= i < state.balances.len() implies kind_of(
        #[trigger] state.balances[i],
    ) == SlotKind::Delivered || kind_of(state.balances[i]) == SlotKind::Absent by {
        assert(state.balances[i] == Slot::Settled(DeliveryOutcome::Delivered) || state.balances[i]
            == Slot::Settled(DeliveryOutcome::Absent));
    }
    lemma_delivered_is_all_but_absent(state.balances, absent);
}

/// In a complete dispatch nothing is pending or in flight, so every target
/// is counted as delivered, absent or failed.
pub proof fn lemma_complete_counts(state: DispatchState)
    requires
        state.valid(),
        state.complete(),
    ensures
        count_kind(state.balances, SlotKind::Pending) == 0,
        count_kind(state.balances, SlotKind::InFlight) == 0,
        count_kind(state.timestamps, SlotKind::Pending) == 0,
        count_kind(state.timestamps, SlotKind::InFlight) == 0,
        count_kind(state.timestamps, SlotKind::Absent) == 0,
{
    assert forall|i: int| 0 <= i < state.balances.len() implies kind_of(
        #[trigger] state.balances[i],
    ) != SlotKind::Pending && kind_of(state.balances[i]) != SlotKind::InFlight by {
        assert(state.balances[i] is Settled);
    }
    assert forall|i: int| 0 <= i < state.timestamps.len() implies kind_of(
        #[trigger] state.timestamps[i],
    ) != SlotKind::Pending && kind_of(state.timestamps[i]) != SlotKind::InFlight && kind_of(
        state.timestamps[i],
    ) != SlotKind::Absent by {
        assert(state.timestamps[i] is Settled);
        assert(timestamp_slot(state.timestamps[i]));
    }
    lemma_count_none(state.balances, SlotKind::Pending);
    lemma_count_none(state.balances, SlotKind::InFlight);
    lemma_count_none(state.timestamps, SlotKind::Pending);
    lemma_count_none(state.timestamps, SlotKind::InFlight);
    lemma_count_none(state.timestamps, SlotKind::Absent);
}

} // verus!
