//! Bringing the challenge records that a provider holds to the wanted state.
//!
//! A [`Reconciler`] makes the decisions of one provisioning or cleaning run
//! and leaves the work to its caller: it hands out an [`Action`] (list,
//! create, delete, wait), the caller carries it out and reports the outcome as
//! an [`Event`], and [`Reconciler::advance`] answers with the next action,
//! until a [`Action::Finish`] carries the result of the run.
//!
//! Two choices are made here where a run could go either way:
//! - provisioning that finds records at the challenge name, none of which
//!   holds the proof, stops with [`ReconcileError::StaleRecords`] and touches
//!   nothing: those records may belong to another validation in progress;
//! - cleaning attempts every deletion even after one has failed, and reports
//!   all the failures together in [`ReconcileError::DeleteFailed`].
use vstd::prelude::*;

use crate::domain_name::{challenge_name_of, get_domain_names_to_use, zone_of};

verus! {

/// Seconds to wait after creating a record, so that the provider's change has
/// spread before the ACME server looks for it.
pub const SETTLE_DELAY_SECS: u64 = 5;

/// The record type of every challenge record.
pub const TXT_RECORD_TYPE: &'static str = "TXT";

/// A `TXT` record as a provider reports it.
#[derive(Clone, Debug, PartialEq, Eq)]
pub struct TxtRecord {
    /// The provider's identifier of the record.
    pub record_id: String,
    /// The record's name relative to its zone.
    pub name: String,
    pub record_type: String,
    /// What the record holds: for a challenge record, a proof.
    pub value: String,
}

pub struct TxtRecordView {
    pub record_id: Seq<char>,
    pub name: Seq<char>,
    pub record_type: Seq<char>,
    pub value: Seq<char>,
}

impl View for TxtRecord {
    type V = TxtRecordView;

    open spec fn view(&self) -> TxtRecordView {
        TxtRecordView {
            record_id: self.record_id@,
            name: self.name@,
            record_type: self.record_type@,
            value: self.value@,
        }
    }
}

impl TxtRecord {
    /// A copy of the record.
    pub fn clone_record(&self) -> (r: TxtRecord)
        ensures
            r@ == self@,
    {
        TxtRecord {
            record_id: self.record_id.clone(),
            name: self.name.clone(),
            record_type: self.record_type.clone(),
            value: self.value.clone(),
        }
    }
}

pub open spec fn records_view(v: Seq<TxtRecord>) -> Seq<TxtRecordView> {
    v.map_values(|r: TxtRecord| r@)
}

pub open spec fn strings_view(v: Seq<String>) -> Seq<Seq<char>> {
    v.map_values(|s: String| s@)
}

/// A failed request to a provider: transport, authentication or an error
/// that the provider reported, with its code where it gave one.
#[derive(Clone, Debug, PartialEq, Eq)]
pub struct BackendError {
    pub code: Option<i64>,
    pub message: String,
}

pub struct BackendErrorView {
    pub code: Option<i64>,
    pub message: Seq<char>,
}

impl View for BackendError {
    type V = BackendErrorView;

    open spec fn view(&self) -> BackendErrorView {
        BackendErrorView { code: self.code, message: self.message@ }
    }
}

/// A deletion that the provider refused.
#[derive(Clone, Debug, PartialEq, Eq)]
pub struct DeleteFailure {
    pub record_id: String,
    pub error: BackendError,
}

pub struct DeleteFailureView {
    pub record_id: Seq<char>,
    pub error: BackendErrorView,
}

impl View for DeleteFailure {
    type V = DeleteFailureView;

    open spec fn view(&self) -> DeleteFailureView {
        DeleteFailureView { record_id: self.record_id@, error: self.error@ }
    }
}

pub open spec fn failures_view(v: Seq<DeleteFailure>) -> Seq<DeleteFailureView> {
    v.map_values(|f: DeleteFailure| f@)
}

/// Why a run failed.
#[derive(Clone, Debug, PartialEq, Eq)]
pub enum ReconcileError {
    /// Listing or creating failed; the provider's error, unchanged.
    Backend(BackendError),
    /// Provisioning found records at the challenge name and none of them
    /// holds the proof.
    StaleRecords,
    /// Cleaning could not delete these records (the others were deleted).
    DeleteFailed(Vec<DeleteFailure>),
    /// The reported event does not answer the action that was handed out.
    UnexpectedEvent,
}

pub enum ReconcileErrorView {
    Backend(BackendErrorView),
    StaleRecords,
    DeleteFailed(Seq<DeleteFailureView>),
    UnexpectedEvent,
}

impl View for ReconcileError {
    type V = ReconcileErrorView;

    open spec fn view(&self) -> ReconcileErrorView {
        match self {
            ReconcileError::Backend(e) => ReconcileErrorView::Backend(e@),
            ReconcileError::StaleRecords => ReconcileErrorView::StaleRecords,
            ReconcileError::DeleteFailed(v) => ReconcileErrorView::DeleteFailed(failures_view(v@)),
            ReconcileError::UnexpectedEvent => ReconcileErrorView::UnexpectedEvent,
        }
    }
}

pub open spec fn outcome_view(r: Result<(), ReconcileError>) -> Result<(), ReconcileErrorView> {
    match r {
        Ok(()) => Ok(()),
        Err(e) => Err(e@),
    }
}

/// What the caller is asked to do next.
#[derive(Debug, PartialEq, Eq)]
pub enum Action {
    /// List the `TXT` records named `record_name` in `zone`.
    ListRecords { zone: String, record_name: String },
    /// Create a record named `record_name` in `zone`.
    CreateRecord { zone: String, record_name: String, record_type: String, value: String },
    /// Delete the record `record_id` of `zone`.
    DeleteRecord { zone: String, record_id: String },
    /// Wait this many seconds.
    Settle { seconds: u64 },
    /// The run is over, with this result.
    Finish(Result<(), ReconcileError>),
}

pub enum ActionView {
    ListRecords { zone: Seq<char>, record_name: Seq<char> },
    CreateRecord { zone: Seq<char>, record_name: Seq<char>, record_type: Seq<char>, value: Seq<char> },
    DeleteRecord { zone: Seq<char>, record_id: Seq<char> },
    Settle { seconds: u64 },
    Finish(Result<(), ReconcileErrorView>),
}

impl View for Action {
    type V = ActionView;

    open spec fn view(&self) -> ActionView {
        match self {
            Action::ListRecords { zone, record_name } => ActionView::ListRecords {
                zone: zone@,
                record_name: record_name@,
            },
            Action::CreateRecord { zone, record_name, record_type, value } => ActionView::CreateRecord {
                zone: zone@,
                record_name: record_name@,
                record_type: record_type@,
                value: value@,
            },
            Action::DeleteRecord { zone, record_id } => ActionView::DeleteRecord {
                zone: zone@,
                record_id: record_id@,
            },
            Action::Settle { seconds } => ActionView::Settle { seconds: *seconds },
            Action::Finish(r) => ActionView::Finish(outcome_view(*r)),
        }
    }
}

/// The outcome of an action, as the caller reports it.
#[derive(Debug, PartialEq, Eq)]
pub enum Event {
    Listed(Result<Vec<TxtRecord>, BackendError>),
    Created(Result<(), BackendError>),
    Deleted(Result<(), BackendError>),
    Settled,
}

pub enum EventView {
    Listed(Result<Seq<TxtRecordView>, BackendErrorView>),
    Created(Result<(), BackendErrorView>),
    Deleted(Result<(), BackendErrorView>),
    Settled,
}

pub open spec fn unit_result_view(r: Result<(), BackendError>) -> Result<(), BackendErrorView> {
    match r {
        Ok(()) => Ok(()),
        Err(e) => Err(e@),
    }
}

impl View for Event {
    type V = EventView;

    open spec fn view(&self) -> EventView {
        match self {
            Event::Listed(Ok(v)) => EventView::Listed(Ok(records_view(v@))),
            Event::Listed(Err(e)) => EventView::Listed(Err(e@)),
            Event::Created(r) => EventView::Created(unit_result_view(*r)),
            Event::Deleted(r) => EventView::Deleted(unit_result_view(*r)),
            Event::Settled => EventView::Settled,
        }
    }
}

/// The two runs: publish the proof, or remove it again.
#[derive(Clone, Copy, Debug, PartialEq, Eq, Structural)]
pub enum Operation {
    Provision,
    Clean,
}

/// Where a run stands.
pub enum PhaseView {
    /// Waiting for the records at the challenge name.
    Listing,
    /// Waiting for the new record to be created.
    Creating,
    /// Waiting for the settle delay to pass.
    Settling,
    /// Waiting for the deletion of `ids[next]`; `failures` holds the
    /// deletions of `ids[..next]` that failed.
    Deleting { ids: Seq<Seq<char>>, next: nat, failures: Seq<DeleteFailureView> },
    /// The run is over.
    Finished,
}

pub struct ReconcilerView {
    pub operation: Operation,
    pub zone: Seq<char>,
    pub record_name: Seq<char>,
    pub proof_value: Seq<char>,
    pub phase: PhaseView,
}

/// Whether some record holds `value`.
pub open spec fn has_value(records: Seq<TxtRecordView>, value: Seq<char>) -> bool {
    exists|k: int| 0 <= k < records.len() && records[k].value == value
}

/// The identifiers of the records that hold `value`, in listing order.
pub open spec fn ids_with_value(records: Seq<TxtRecordView>, value: Seq<char>) -> Seq<Seq<char>>
    decreases records.len(),
{
    if records.len() == 0 {
        Seq::empty()
    } else {
        let rest = ids_with_value(records.drop_last(), value);
        if records.last().value == value {
            rest.push(records.last().record_id)
        } else {
            rest
        }
    }
}

/// The state and first action of a run for `domain` and `proof_value`.
pub open spec fn start(operation: Operation, domain: Seq<char>, proof_value: Seq<char>) -> (
    ReconcilerView,
    ActionView,
) {
    let s = ReconcilerView {
        operation,
        zone: zone_of(domain),
        record_name: challenge_name_of(domain),
        proof_value,
        phase: PhaseView::Listing,
    };
    (s, ActionView::ListRecords { zone: s.zone, record_name: s.record_name })
}

pub open spec fn finish(s: ReconcilerView, r: Result<(), ReconcileErrorView>) -> (
    ReconcilerView,
    ActionView,
) {
    (ReconcilerView { phase: PhaseView::Finished, ..s }, ActionView::Finish(r))
}

/// The decision once the records at the challenge name are known.
pub open spec fn on_listed(s: ReconcilerView, records: Seq<TxtRecordView>) -> (
    ReconcilerView,
    ActionView,
) {
    match s.operation {
        Operation::Provision => {
            if has_value(records, s.proof_value) {
                finish(s, Ok(()))
            } else if records.len() == 0 {
                (
                    ReconcilerView { phase: PhaseView::Creating, ..s },
                    ActionView::CreateRecord {
                        zone: s.zone,
                        record_name: s.record_name,
                        record_type: TXT_RECORD_TYPE@,
                        value: s.proof_value,
                    },
                )
            } else {
                finish(s, Err(ReconcileErrorView::StaleRecords))
            }
        },
        Operation::Clean => {
            let ids = ids_with_value(records, s.proof_value);
            if ids.len() == 0 {
                finish(s, Ok(()))
            } else {
                (
                    ReconcilerView {
                        phase: PhaseView::Deleting { ids, next: 0, failures: Seq::empty() },
                        ..s
                    },
                    ActionView::DeleteRecord { zone: s.zone, record_id: ids[0] },
                )
            }
        },
    }
}

/// The decision once the deletion of `ids[next]` is over, with `failures`
/// including its own failure, if any.
pub open spec fn after_delete(
    s: ReconcilerView,
    ids: Seq<Seq<char>>,
    next: nat,
    failures: Seq<DeleteFailureView>,
) -> (ReconcilerView, ActionView) {
    if next + 1 < ids.len() {
        (
            ReconcilerView { phase: PhaseView::Deleting { ids, next: next + 1, failures }, ..s },
            ActionView::DeleteRecord { zone: s.zone, record_id: ids[next + 1 as int] },
        )
    } else if failures.len() == 0 {
        finish(s, Ok(()))
    } else {
        finish(s, Err(ReconcileErrorView::DeleteFailed(failures)))
    }
}

/// One transition: the state and action that follow `s` on event `e`.
pub open spec fn step(s: ReconcilerView, e: EventView) -> (ReconcilerView, ActionView) {
    match s.phase {
        PhaseView::Listing => match e {
            EventView::Listed(Ok(records)) => on_listed(s, records),
            EventView::Listed(Err(err)) => finish(s, Err(ReconcileErrorView::Backend(err))),
            _ => finish(s, Err(ReconcileErrorView::UnexpectedEvent)),
        },
        PhaseView::Creating => match e {
            EventView::Created(Ok(())) => (
                ReconcilerView { phase: PhaseView::Settling, ..s },
                ActionView::Settle { seconds: SETTLE_DELAY_SECS },
            ),
            EventView::Created(Err(err)) => finish(s, Err(ReconcileErrorView::Backend(err))),
            _ => finish(s, Err(ReconcileErrorView::UnexpectedEvent)),
        },
        PhaseView::Settling => match e {
            EventView::Settled => finish(s, Ok(())),
            _ => finish(s, Err(ReconcileErrorView::UnexpectedEvent)),
        },
        PhaseView::Deleting { ids, next, failures } => match e {
            EventView::Deleted(Ok(())) => after_delete(s, ids, next, failures),
            EventView::Deleted(Err(err)) => after_delete(
                s,
                ids,
                next,
                failures.push(DeleteFailureView { record_id: ids[next as int], error: err }),
            ),
            _ => finish(s, Err(ReconcileErrorView::UnexpectedEvent)),
        },
        PhaseView::Finished => finish(s, Err(ReconcileErrorView::UnexpectedEvent)),
    }
}

#[derive(Clone, Copy, PartialEq, Eq, Structural)]
enum Stage {
    Listing,
    Creating,
    Settling,
    Deleting,
    Finished,
}

/// The decisions of one provisioning or cleaning run.
pub struct Reconciler {
    operation: Operation,
    zone: String,
    record_name: String,
    proof_value: String,
    stage: Stage,
    pending: Vec<String>,
    next: usize,
    failures: Vec<DeleteFailure>,
}

impl View for Reconciler {
    type V = ReconcilerView;

    closed spec fn view(&self) -> ReconcilerView {
        ReconcilerView {
            operation: self.operation,
            zone: self.zone@,
            record_name: self.record_name@,
            proof_value: self.proof_value@,
            phase: match self.stage {
                Stage::Listing => PhaseView::Listing,
                Stage::Creating => PhaseView::Creating,
                Stage::Settling => PhaseView::Settling,
                Stage::Deleting => PhaseView::Deleting {
                    ids: strings_view(self.pending@),
                    next: self.next as nat,
                    failures: failures_view(self.failures@),
                },
                Stage::Finished => PhaseView::Finished,
            },
        }
    }
}

/// Whether one of `records` holds `value`.
fn contains_value(records: &Vec<TxtRecord>, value: &String) -> (r: bool)
    ensures
        r == has_value(records_view(records@), value@),
{
    let ghost rv = records_view(records@);
    let mut i: usize = 0;
    while i < records.len()
        invariant
            i <= records@.len(),
            rv == records_view(records@),
            forall|k: int| 0 <= k < i ==> rv[k].value != value@,
        decreases records@.len() - i,
    {
        if records[i].value == *value {
            assert(rv[i as int].value == value@);
            return true;
        }
        i = i + 1;
    }
    false
}

/// The identifiers of the records that hold `value`, in listing order.
fn collect_ids_with_value(records: &Vec<TxtRecord>, value: &String) -> (r: Vec<String>)
    ensures
        strings_view(r@) == ids_with_value(records_view(records@), value@),
{
    let ghost rv = records_view(records@);
    let mut ids: Vec<String> = Vec::new();
    let mut i: usize = 0;
    while i < records.len()
        invariant
            i <= records@.len(),
            rv == records_view(records@),
            strings_view(ids@) == ids_with_value(rv.take(i as int), value@),
        decreases records@.len() - i,
    {
        assert(rv.take(i + 1).drop_last() =~= rv.take(i as int));
        let ghost before = ids@;
        if records[i].value == *value {
            ids.push(records[i].record_id.clone());
            assert(strings_view(ids@) =~= strings_view(before).push(rv[i as int].record_id));
        }
        i = i + 1;
    }
    assert(rv.take(records@.len() as int) =~= rv);
    ids
}

impl Reconciler {
    /// Well-formed: a deletion in progress names one of the pending records.
    pub closed spec fn wf(&self) -> bool {
        self.stage == Stage::Deleting ==> self.next < self.pending@.len()
    }

    /// Starts a run for `domain` and `proof_value`; the first action lists the
    /// records at the domain's challenge name.
    pub fn new(operation: Operation, domain: &str, proof_value: &str) -> (r: (Reconciler, Action))
        ensures
            r.0.wf(),
            (r.0@, r.1@) == start(operation, domain@, proof_value@),
    {
        let names = get_domain_names_to_use(domain);
        let zone = String::from_str(names.root_domain());
        let record_name = String::from_str(names.challenge_record_name());
        let action = Action::ListRecords { zone: zone.clone(), record_name: record_name.clone() };
        let reconciler = Reconciler {
            operation,
            zone,
            record_name,
            proof_value: String::from_str(proof_value),
            stage: Stage::Listing,
            pending: Vec::new(),
            next: 0,
            failures: Vec::new(),
        };
        (reconciler, action)
    }

    fn finish(&mut self, result: Result<(), ReconcileError>) -> (a: Action)
        ensures
            final(self).wf(),
            (final(self)@, a@) == finish(old(self)@, outcome_view(result)),
    {
        self.stage = Stage::Finished;
        Action::Finish(result)
    }

    fn on_listed(&mut self, records: Vec<TxtRecord>) -> (a: Action)
        requires
            old(self).stage == Stage::Listing,
        ensures
            final(self).wf(),
            (final(self)@, a@) == on_listed(old(self)@, records_view(records@)),
    {
        match self.operation {
            Operation::Provision => {
                if contains_value(&records, &self.proof_value) {
                    self.finish(Ok(()))
                } else if records.len() == 0 {
                    self.stage = Stage::Creating;
                    Action::CreateRecord {
                        zone: self.zone.clone(),
                        record_name: self.record_name.clone(),
                        record_type: String::from_str(TXT_RECORD_TYPE),
                        value: self.proof_value.clone(),
                    }
                } else {
                    self.finish(Err(ReconcileError::StaleRecords))
                }
            },
            Operation::Clean => {
                let ids = collect_ids_with_value(&records, &self.proof_value);
                if ids.len() == 0 {
                    self.finish(Ok(()))
                } else {
                    let first = ids[0].clone();
                    self.pending = ids;
                    self.next = 0;
                    self.failures = Vec::new();
                    self.stage = Stage::Deleting;
                    assert(failures_view(self.failures@) =~= Seq::empty());
                    Action::DeleteRecord { zone: self.zone.clone(), record_id: first }
                }
            },
        }
    }

    fn on_deleted(&mut self, result: Result<(), BackendError>) -> (a: Action)
        requires
            old(self).stage == Stage::Deleting,
            old(self).wf(),
        ensures
            final(self).wf(),
            (final(self)@, a@) == step(old(self)@, EventView::Deleted(unit_result_view(result))),
    {
        let ghost ids = strings_view(self.pending@);
        assert(self.next < self.pending@.len());
        if let Err(error) = result {
            let ghost before = self.failures@;
            let record_id = self.pending[self.next].clone();
            let ghost failure = DeleteFailureView { record_id: ids[self.next as int], error: error@ };
            self.failures.push(DeleteFailure { record_id, error });
            assert(failures_view(self.failures@) =~= failures_view(before).push(failure));
        }
        if self.next < self.pending.len() - 1 {
            self.next = self.next + 1;
            Action::DeleteRecord {
                zone: self.zone.clone(),
                record_id: self.pending[self.next].clone(),
            }
        } else if self.failures.len() == 0 {
            self.finish(Ok(()))
        } else {
            let mut failures: Vec<DeleteFailure> = Vec::new();
            std::mem::swap(&mut failures, &mut self.failures);
            self.finish(Err(ReconcileError::DeleteFailed(failures)))
        }
    }

    /// Takes the outcome of the last action and returns the next action.
    pub fn advance(&mut self, event: Event) -> (a: Action)
        requires
            old(self).wf(),
        ensures
            final(self).wf(),
            (final(self)@, a@) == step(old(self)@, event@),
    {
        match self.stage {
            Stage::Listing => match event {
                Event::Listed(Ok(records)) => self.on_listed(records),
                Event::Listed(Err(err)) => self.finish(Err(ReconcileError::Backend(err))),
                _ => self.finish(Err(ReconcileError::UnexpectedEvent)),
            },
            Stage::Creating => match event {
                Event::Created(Ok(())) => {
                    self.stage = Stage::Settling;
                    Action::Settle { seconds: SETTLE_DELAY_SECS }
                },
                Event::Created(Err(err)) => self.finish(Err(ReconcileError::Backend(err))),
                _ => self.finish(Err(ReconcileError::UnexpectedEvent)),
            },
            Stage::Settling => match event {
                Event::Settled => self.finish(Ok(())),
                _ => self.finish(Err(ReconcileError::UnexpectedEvent)),
            },
            Stage::Deleting => match event {
                Event::Deleted(result) => self.on_deleted(result),
                _ => self.finish(Err(ReconcileError::UnexpectedEvent)),
            },
            Stage::Finished => self.finish(Err(ReconcileError::UnexpectedEvent)),
        }
    }
}

} // verus!
