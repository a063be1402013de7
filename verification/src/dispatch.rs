//! The sync dispatcher: one slot per target, each settled on its own.
//!
//! The dispatcher sends nothing itself. For every balance target its caller
//! reports what the extractor found and is handed the request to post, if
//! there is one; later it reports what the sink answered. Timestamp targets
//! form a second phase, which opens once every balance target has been
//! looked at; for each of them the caller hands over the time that it read,
//! or reports that it could read none. Reports may arrive in any order: each
//! touches one slot only.

use vstd::prelude::*;
use crate::balance::Balance;
use crate::clock::LocalTime;
use crate::google_sheets::{outcome_of, DeliveryOutcome, Reply, RequestView, SheetsRequest};
use crate::tally::{tally, Tally};
use crate::targets::{
    SinkSettings, SinkView, SyncTarget, SyncTargetView, TimestampTarget, TimestampTargetView,
};

verus! {

/// What the balance extractor returned for one account.
#[derive(Clone, Copy, Debug, PartialEq, Eq, Structural)]
pub enum Extraction {
    /// The document holds this balance for the account.
    Found(Balance),
    /// The document holds no balance for the account.
    Absent,
    /// The document could not be parsed.
    Failed,
}

/// How far one target has come.
#[derive(Clone, Copy, Debug, PartialEq, Eq, Structural)]
pub enum Slot {
    /// Nothing was done for the target yet.
    Pending,
    /// Its request was handed out and the sink's answer is awaited.
    InFlight,
    /// The target is done, with this outcome.
    Settled(DeliveryOutcome),
}

/// Why a report was not taken.
#[derive(Clone, Copy, Debug, PartialEq, Eq, Structural)]
pub enum Refusal {
    /// There is no target with that index.
    UnknownTarget,
    /// The target is not waiting for this kind of report.
    OutOfTurn,
    /// Timestamps are not issued while a balance target is still pending.
    BalancesPending,
}

/// The slot of a balance target after the extractor returned `extraction`.
pub open spec fn slot_after_extraction(extraction: Extraction) -> Slot {
    match extraction {
        Extraction::Found(_) => Slot::InFlight,
        Extraction::Absent => Slot::Settled(DeliveryOutcome::Absent),
        Extraction::Failed => Slot::Settled(DeliveryOutcome::ExtractionFailed),
    }
}

/// Whether no slot is pending any more.
pub open spec fn all_issued(slots: Seq<Slot>) -> bool {
    forall|i: int| 0 <= i < slots.len() ==> #[trigger] slots[i] != Slot::Pending
}

/// Whether every slot is settled.
pub open spec fn all_settled(slots: Seq<Slot>) -> bool {
    forall|i: int| 0 <= i < slots.len() ==> #[trigger] slots[i] is Settled
}

/// Whether a slot can be that of a timestamp target: there is always a
/// time to publish, so a timestamp is never absent.
pub open spec fn timestamp_slot(slot: Slot) -> bool {
    slot != Slot::Settled(DeliveryOutcome::Absent)
}

/// The views of a list of balance targets.
pub open spec fn sync_views(targets: Seq<SyncTarget>) -> Seq<SyncTargetView> {
    Seq::new(targets.len(), |i: int| targets[i]@)
}

/// The views of a list of timestamp targets.
pub open spec fn timestamp_views(targets: Seq<TimestampTarget>) -> Seq<TimestampTargetView> {
    Seq::new(targets.len(), |i: int| targets[i]@)
}

/// The view of an optional request.
pub open spec fn request_of(request: Option<SheetsRequest>) -> Option<RequestView> {
    match request {
        Some(request) => Some(request@),
        None => None,
    }
}

/// The state of one dispatch.
pub struct DispatchState {
    pub sink: SinkView,
    pub sync_targets: Seq<SyncTargetView>,
    pub timestamp_targets: Seq<TimestampTargetView>,
    pub balances: Seq<Slot>,
    pub timestamps: Seq<Slot>,
}

impl DispatchState {
    /// The state before anything was reported: every slot is pending.
    pub open spec fn initial(
        sink: SinkView,
        sync_targets: Seq<SyncTargetView>,
        timestamp_targets: Seq<TimestampTargetView>,
    ) -> DispatchState {
        DispatchState {
            sink,
            sync_targets,
            timestamp_targets,
            balances: Seq::new(sync_targets.len(), |i: int| Slot::Pending),
            timestamps: Seq::new(timestamp_targets.len(), |i: int| Slot::Pending),
        }
    }

    /// The invariant of a dispatch: one slot per target, no timestamp issued
    /// while a balance target is pending, and no timestamp slot that is
    /// absent.
    pub open spec fn valid(self) -> bool {
        &&& self.balances.len() == self.sync_targets.len()
        &&& self.timestamps.len() == self.timestamp_targets.len()
        &&& all_issued(self.balances) || forall|k: int|
            0 <= k < self.timestamps.len() ==> #[trigger] self.timestamps[k] == Slot::Pending
        &&& forall|k: int|
            0 <= k < self.timestamps.len() ==> timestamp_slot(#[trigger] self.timestamps[k])
    }

    /// Whether every target of both phases is settled.
    pub open spec fn complete(self) -> bool {
        all_settled(self.balances) && all_settled(self.timestamps)
    }

    /// Why an extraction for balance target `index` is refused, if it is.
    pub open spec fn extraction_refusal(self, index: int) -> Option<Refusal> {
        if !(0 <= index < self.balances.len()) {
            Some(Refusal::UnknownTarget)
        } else if self.balances[index] != Slot::Pending {
            Some(Refusal::OutOfTurn)
        } else {
            None
        }
    }

    /// The state after `extraction` was reported for balance target `index`.
    pub open spec fn after_extraction(self, index: int, extraction: Extraction) -> DispatchState {
        DispatchState {
            balances: self.balances.update(index, slot_after_extraction(extraction)),
            ..self
        }
    }

    /// The request to post after `extraction` was reported for balance target
    /// `index`: one for a balance that was found, none otherwise.
    pub open spec fn request_for(self, index: int, extraction: Extraction) -> Option<
        RequestView,
    > {
        match extraction {
            Extraction::Found(balance) => Some(
                self.sync_targets[index].request(self.sink, balance),
            ),
            _ => None,
        }
    }

    /// Why a reply for balance target `index` is refused, if it is.
    pub open spec fn balance_reply_refusal(self, index: int) -> Option<Refusal> {
        if !(0 <= index < self.balances.len()) {
            Some(Refusal::UnknownTarget)
        } else if self.balances[index] != Slot::InFlight {
            Some(Refusal::OutOfTurn)
        } else {
            None
        }
    }

    /// The state after the sink's `reply` was reported for balance target
    /// `index`.
    pub open spec fn after_balance_reply(self, index: int, reply: Reply) -> DispatchState {
        DispatchState {
            balances: self.balances.update(index, Slot::Settled(outcome_of(reply))),
            ..self
        }
    }

    /// Why issuing the timestamp for target `index`, or giving it up, is
    /// refused, if it is.
    pub open spec fn stamp_refusal(self, index: int) -> Option<Refusal> {
        if !(0 <= index < self.timestamps.len()) {
            Some(Refusal::UnknownTarget)
        } else if !all_issued(self.balances) {
            Some(Refusal::BalancesPending)
        } else if self.timestamps[index] != Slot::Pending {
            Some(Refusal::OutOfTurn)
        } else {
            None
        }
    }

    /// The state after the timestamp for target `index` was issued.
    pub open spec fn after_stamp(self, index: int) -> DispatchState {
        DispatchState { timestamps: self.timestamps.update(index, Slot::InFlight), ..self }
    }

    /// The state after the timestamp for target `index` was given up because
    /// the time could not be had.
    pub open spec fn after_stamp_failure(self, index: int) -> DispatchState {
        DispatchState {
            timestamps: self.timestamps.update(
                index,
                Slot::Settled(DeliveryOutcome::ExtractionFailed),
            ),
            ..self
        }
    }

    /// Why a reply for timestamp target `index` is refused, if it is.
    pub open spec fn timestamp_reply_refusal(self, index: int) -> Option<Refusal> {
        if !(0 <= index < self.timestamps.len()) {
            Some(Refusal::UnknownTarget)
        } else if self.timestamps[index] != Slot::InFlight {
            Some(Refusal::OutOfTurn)
        } else {
            None
        }
    }

    /// The state after the sink's `reply` was reported for timestamp target
    /// `index`.
    pub open spec fn after_timestamp_reply(self, index: int, reply: Reply) -> DispatchState {
        DispatchState {
            timestamps: self.timestamps.update(index, Slot::Settled(outcome_of(reply))),
            ..self
        }
    }
}

/// One report to the dispatcher.
pub enum Report {
    /// The extractor returned `extraction` for balance target `index`.
    Extracted { index: int, extraction: Extraction },
    /// The sink answered `reply` for balance target `index`.
    BalanceReplied { index: int, reply: Reply },
    /// The timestamp for target `index` was issued.
    Stamped { index: int },
    /// The timestamp for target `index` was given up: the time could not be
    /// had.
    StampFailed { index: int },
    /// The sink answered `reply` for timestamp target `index`.
    TimestampReplied { index: int, reply: Reply },
}

impl Report {
    /// Whether the report is about a balance target.
    pub open spec fn about_balance(self) -> bool {
        self is Extracted || self is BalanceReplied
    }

    /// The index of the target that the report is about.
    pub open spec fn index(self) -> int {
        match self {
            Report::Extracted { index, .. } => index,
            Report::BalanceReplied { index, .. } => index,
            Report::Stamped { index } => index,
            Report::StampFailed { index } => index,
            Report::TimestampReplied { index, .. } => index,
        }
    }

    /// Whether two reports are about different targets.
    pub open spec fn other_target(self, other: Report) -> bool {
        self.about_balance() != other.about_balance() || self.index() != other.index()
    }
}

impl DispatchState {
    /// Why `report` is refused in this state, if it is.
    pub open spec fn refusal(self, report: Report) -> Option<Refusal> {
        match report {
            Report::Extracted { index, .. } => self.extraction_refusal(index),
            Report::BalanceReplied { index, .. } => self.balance_reply_refusal(index),
            Report::Stamped { index } => self.stamp_refusal(index),
            Report::StampFailed { index } => self.stamp_refusal(index),
            Report::TimestampReplied { index, .. } => self.timestamp_reply_refusal(index),
        }
    }

    /// The state after `report`: changed as the report says if it is taken,
    /// and unchanged if it is refused.
    pub open spec fn after(self, report: Report) -> DispatchState {
        if self.refusal(report) is Some {
            self
        } else {
            match report {
                Report::Extracted { index, extraction } => self.after_extraction(
                    index,
                    extraction,
                ),
                Report::BalanceReplied { index, reply } => self.after_balance_reply(index, reply),
                Report::Stamped { index } => self.after_stamp(index),
                Report::StampFailed { index } => self.after_stamp_failure(index),
                Report::TimestampReplied { index, reply } => self.after_timestamp_reply(
                    index,
                    reply,
                ),
            }
        }
    }
}

/// A list of `count` pending slots.
fn pending_slots(count: usize) -> (slots: Vec<Slot>)
    ensures
        slots@ =~= Seq::new(count as nat, |i: int| Slot::Pending),
{
    let mut slots: Vec<Slot> = Vec::new();
    while slots.len() < count
        invariant
            slots.len() <= count,
            forall|i: int| 0 <= i < slots.len() ==> slots[i] == Slot::Pending,
        decreases count - slots.len(),
    {
        slots.push(Slot::Pending);
    }
    slots
}

/// Whether no slot of the list is pending.
fn none_pending(slots: &Vec<Slot>) -> (issued: bool)
    ensures
        issued == all_issued(slots@),
{
    let mut i: usize = 0;
    while i < slots.len()
        invariant
            i <= slots.len(),
            forall|j: int| 0 <= j < i ==> #[trigger] slots[j] != Slot::Pending,
        decreases slots.len() - i,
    {
        match slots[i] {
            Slot::Pending => {
                return false;
            },
            _ => {},
        }
        i = i + 1;
    }
    true
}

/// Whether every slot of the list is settled.
fn every_settled(slots: &Vec<Slot>) -> (settled: bool)
    ensures
        settled == all_settled(slots@),
{
    let mut i: usize = 0;
    while i < slots.len()
        invariant
            i <= slots.len(),
            forall|j: int| 0 <= j < i ==> #[trigger] slots[j] is Settled,
        decreases slots.len() - i,
    {
        match slots[i] {
            Slot::Settled(_) => {},
            _ => {
                return false;
            },
        }
        i = i + 1;
    }
    true
}

/// The sync dispatcher.
pub struct Dispatcher {
    sink: SinkSettings,
    sync_targets: Vec<SyncTarget>,
    timestamp_targets: Vec<TimestampTarget>,
    balances: Vec<Slot>,
    timestamps: Vec<Slot>,
}

impl View for Dispatcher {
    type V = DispatchState;

    closed spec fn view(&self) -> DispatchState {
        DispatchState {
            sink: self.sink@,
            sync_targets: sync_views(self.sync_targets@),
            timestamp_targets: timestamp_views(self.timestamp_targets@),
            balances: self.balances@,
            timestamps: self.timestamps@,
        }
    }
}

impl Dispatcher {
    /// Whether the dispatcher is in a state that a dispatch can reach.
    pub open spec fn wf(&self) -> bool {
        self@.valid()
    }

    /// A dispatcher for the given targets. Nothing has been reported yet.
    pub fn new(
        sink: SinkSettings,
        sync_targets: Vec<SyncTarget>,
        timestamp_targets: Vec<TimestampTarget>,
    ) -> (dispatcher: Dispatcher)
        ensures
            dispatcher.wf(),
            dispatcher@ == DispatchState::initial(
                sink@,
                sync_views(sync_targets@),
                timestamp_views(timestamp_targets@),
            ),
    {
        let balances = pending_slots(sync_targets.len());
        let timestamps = pending_slots(timestamp_targets.len());
        Dispatcher { sink, sync_targets, timestamp_targets, balances, timestamps }
    }

    /// The number of balance targets.
    pub fn sync_count(&self) -> (count: usize)
        ensures
            count == self@.sync_targets.len(),
    {
        self.sync_targets.len()
    }

    /// The number of timestamp targets.
    pub fn timestamp_count(&self) -> (count: usize)
        ensures
            count == self@.timestamp_targets.len(),
    {
        self.timestamp_targets.len()
    }

    /// The balance target with the given index, if there is one.
    pub fn sync_target(&self, index: usize) -> (target: Option<&SyncTarget>)
        ensures
            match target {
                Some(target) => index < self@.sync_targets.len() && target@
                    == self@.sync_targets[index as int],
                None => index >= self@.sync_targets.len(),
            },
    {
        if index < self.sync_targets.len() {
            Some(&self.sync_targets[index])
        } else {
            None
        }
    }

    /// The slot of the balance target with the given index, if there is one.
    pub fn balance_slot(&self, index: usize) -> (slot: Option<Slot>)
        ensures
            match slot {
                Some(slot) => index < self@.balances.len() && slot == self@.balances[index as int],
                None => index >= self@.balances.len(),
            },
    {
        if index < self.balances.len() {
            Some(self.balances[index])
        } else {
            None
        }
    }

    /// The slot of the timestamp target with the given index, if there is
    /// one.
    pub fn timestamp_slot(&self, index: usize) -> (slot: Option<Slot>)
        ensures
            match slot {
                Some(slot) => index < self@.timestamps.len() && slot
                    == self@.timestamps[index as int],
                None => index >= self@.timestamps.len(),
            },
    {
        if index < self.timestamps.len() {
            Some(self.timestamps[index])
        } else {
            None
        }
    }

    /// Whether every balance target has been looked at, so that the
    /// timestamps may be issued.
    pub fn balances_issued(&self) -> (issued: bool)
        ensures
            issued == all_issued(self@.balances),
    {
        none_pending(&self.balances)
    }

    /// Whether every target of both phases is settled.
    pub fn is_complete(&self) -> (complete: bool)
        ensures
            complete == self@.complete(),
    {
        every_settled(&self.balances) && every_settled(&self.timestamps)
    }

    /// How many balance targets stand or ended in which way.
    pub fn balance_tally(&self) -> (tally: Tally)
        ensures
            tally.counts(self@.balances),
            tally.total() == self@.balances.len(),
            tally.total() <= usize::MAX,
    {
        tally(&self.balances)
    }

    /// How many timestamp targets stand or ended in which way.
    pub fn timestamp_tally(&self) -> (tally: Tally)
        ensures
            tally.counts(self@.timestamps),
            tally.total() == self@.timestamps.len(),
            tally.total() <= usize::MAX,
    {
        tally(&self.timestamps)
    }

    /// Reports what the extractor returned for balance target `index`.
    ///
    /// For a balance that was found, the target's request is handed out and
    /// its slot is in flight. An absent balance and a failed extraction
    /// settle the slot without a request. No other slot changes.
    pub fn extracted(&mut self, index: usize, extraction: Extraction) -> (result: Result<
        Option<SheetsRequest>,
        Refusal,
    >)
        requires
            old(self).wf(),
        ensures
            final(self).wf(),
            final(self)@ == old(self)@.after(
                Report::Extracted { index: index as int, extraction },
            ),
            match result {
                Ok(request) => {
                    &&& old(self)@.extraction_refusal(index as int) is None
                    &&& final(self)@ == old(self)@.after_extraction(index as int, extraction)
                    &&& request_of(request) == old(self)@.request_for(index as int, extraction)
                },
                Err(refusal) => {
                    &&& old(self)@.extraction_refusal(index as int) == Some(refusal)
                    &&& final(self)@ == old(self)@
                },
            },
    {
        if index >= self.balances.len() {
            return Err(Refusal::UnknownTarget);
        }
        match self.balances[index] {
            Slot::Pending => {},
            _ => {
                return Err(Refusal::OutOfTurn);
            },
        }
        match extraction {
            Extraction::Found(balance) => {
                self.balances.set(index, Slot::InFlight);
                Ok(Some(self.sync_targets[index].request(&self.sink, balance)))
            },
            Extraction::Absent => {
                self.balances.set(index, Slot::Settled(DeliveryOutcome::Absent));
                Ok(None)
            },
            Extraction::Failed => {
                self.balances.set(index, Slot::Settled(DeliveryOutcome::ExtractionFailed));
                Ok(None)
            },
        }
    }

    /// Reports what the sink answered for balance target `index`, and
    /// returns the outcome that the slot is settled with. No other slot
    /// changes.
    pub fn balance_replied(&mut self, index: usize, reply: Reply) -> (result: Result<
        DeliveryOutcome,
        Refusal,
    >)
        requires
            old(self).wf(),
        ensures
            final(self).wf(),
            final(self)@ == old(self)@.after(
                Report::BalanceReplied { index: index as int, reply },
            ),
            match result {
                Ok(outcome) => {
                    &&& old(self)@.balance_reply_refusal(index as int) is None
                    &&& final(self)@ == old(self)@.after_balance_reply(index as int, reply)
                    &&& outcome == outcome_of(reply)
                },
                Err(refusal) => {
                    &&& old(self)@.balance_reply_refusal(index as int) == Some(refusal)
                    &&& final(self)@ == old(self)@
                },
            },
    {
        if index >= self.balances.len() {
            return Err(Refusal::UnknownTarget);
        }
        match self.balances[index] {
            Slot::InFlight => {},
            _ => {
                return Err(Refusal::OutOfTurn);
            },
        }
        let outcome = reply.outcome();
        self.balances.set(index, Slot::Settled(outcome));
        Ok(outcome)
    }

    /// Issues the timestamp for target `index`: hands out the request that
    /// publishes the timestamp of `time`. Refused while a balance target is
    /// pending. No other slot changes.
    pub fn stamp(&mut self, index: usize, time: &LocalTime) -> (result: Result<
        SheetsRequest,
        Refusal,
    >)
        requires
            old(self).wf(),
        ensures
            final(self).wf(),
            final(self)@ == old(self)@.after(Report::Stamped { index: index as int }),
            match result {
                Ok(request) => {
                    &&& old(self)@.stamp_refusal(index as int) is None
                    &&& final(self)@ == old(self)@.after_stamp(index as int)
                    &&& request@ == old(self)@.timestamp_targets[index as int].request(
                        old(self)@.sink,
                        time@,
                    )
                },
                Err(refusal) => {
                    &&& old(self)@.stamp_refusal(index as int) == Some(refusal)
                    &&& final(self)@ == old(self)@
                },
            },
    {
        if index >= self.timestamps.len() {
            return Err(Refusal::UnknownTarget);
        }
        if !none_pending(&self.balances) {
            return Err(Refusal::BalancesPending);
        }
        match self.timestamps[index] {
            Slot::Pending => {},
            _ => {
                return Err(Refusal::OutOfTurn);
            },
        }
        self.timestamps.set(index, Slot::InFlight);
        Ok(self.timestamp_targets[index].request(&self.sink, time))
    }

    /// Reports that no timestamp could be made for target `index`, because
    /// the time could not be had. The slot is settled without a request.
    /// Refused while a balance target is pending. No other slot changes.
    pub fn stamp_failed(&mut self, index: usize) -> (result: Result<DeliveryOutcome, Refusal>)
        requires
            old(self).wf(),
        ensures
            final(self).wf(),
            final(self)@ == old(self)@.after(Report::StampFailed { index: index as int }),
            match result {
                Ok(outcome) => {
                    &&& old(self)@.stamp_refusal(index as int) is None
                    &&& final(self)@ == old(self)@.after_stamp_failure(index as int)
                    &&& outcome == DeliveryOutcome::ExtractionFailed
                },
                Err(refusal) => {
                    &&& old(self)@.stamp_refusal(index as int) == Some(refusal)
                    &&& final(self)@ == old(self)@
                },
            },
    {
        if index >= self.timestamps.len() {
            return Err(Refusal::UnknownTarget);
        }
        if !none_pending(&self.balances) {
            return Err(Refusal::BalancesPending);
        }
        match self.timestamps[index] {
            Slot::Pending => {},
            _ => {
                return Err(Refusal::OutOfTurn);
            },
        }
        self.timestamps.set(index, Slot::Settled(DeliveryOutcome::ExtractionFailed));
        Ok(DeliveryOutcome::ExtractionFailed)
    }

    /// Reports what the sink answered for timestamp target `index`, and
    /// returns the outcome that the slot is settled with. No other slot
    /// changes.
    pub fn timestamp_replied(&mut self, index: usize, reply: Reply) -> (result: Result<
        DeliveryOutcome,
        Refusal,
    >)
        requires
            old(self).wf(),
        ensures
            final(self).wf(),
            final(self)@ == old(self)@.after(
                Report::TimestampReplied { index: index as int, reply },
            ),
            match result {
                Ok(outcome) => {
                    &&& old(self)@.timestamp_reply_refusal(index as int) is None
                    &&& final(self)@ == old(self)@.after_timestamp_reply(index as int, reply)
                    &&& outcome == outcome_of(reply)
                },
                Err(refusal) => {
                    &&& old(self)@.timestamp_reply_refusal(index as int) == Some(refusal)
                    &&& final(self)@ == old(self)@
                },
            },
    {
        if index >= self.timestamps.len() {
            return Err(Refusal::UnknownTarget);
        }
        match self.timestamps[index] {
            Slot::InFlight => {},
            _ => {
                return Err(Refusal::OutOfTurn);
            },
        }
        let outcome = reply.outcome();
        self.timestamps.set(index, Slot::Settled(outcome));
        Ok(outcome)
    }
}

} // verus!
