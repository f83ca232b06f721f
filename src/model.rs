//! A provider that keeps its records and grants every request, and what runs
//! of the reconciler do against it.
//!
//! The model holds the records at one challenge name. Listing reports them,
//! creating adds a record, deleting removes the records with the given
//! identifier, and waiting changes nothing. Running the reconciler against it
//! shows the properties of provisioning and cleaning as a whole.
use vstd::prelude::*;

use crate::reconcile::{
    has_value, ids_with_value, start, step, TXT_RECORD_TYPE, ActionView, EventView, Operation, ReconcileErrorView,
    ReconcilerView, TxtRecordView, PhaseView,
};

verus! {

/// The event that a provider holding `store` reports for `action`, and the
/// records it holds afterwards; a created record gets the identifier `new_id`.
pub open spec fn serve(store: Seq<TxtRecordView>, action: ActionView, new_id: Seq<char>) -> (
    EventView,
    Seq<TxtRecordView>,
) {
    match action {
        ActionView::ListRecords { .. } => (EventView::Listed(Ok(store)), store),
        ActionView::CreateRecord { record_name, record_type, value, .. } => (
            EventView::Created(Ok(())),
            store.push(TxtRecordView { record_id: new_id, name: record_name, record_type, value }),
        ),
        ActionView::DeleteRecord { record_id, .. } => (
            EventView::Deleted(Ok(())),
            store.filter(|r: TxtRecordView| r.record_id != record_id),
        ),
        _ => (EventView::Settled, store),
    }
}

/// Where a run ended: its result (`None` if it did not finish within the
/// steps allowed), the records left, and how many records it created and
/// deleted.
pub struct RunView {
    pub result: Option<Result<(), ReconcileErrorView>>,
    pub store: Seq<TxtRecordView>,
    pub creates: nat,
    pub deletes: nat,
}

/// Runs the reconciler from state `s` and pending `action` against a provider
/// holding `store`, for at most `fuel` actions.
pub open spec fn run(
    s: ReconcilerView,
    action: ActionView,
    store: Seq<TxtRecordView>,
    new_id: Seq<char>,
    fuel: nat,
) -> RunView
    decreases fuel,
{
    match action {
        ActionView::Finish(r) => RunView { result: Some(r), store, creates: 0, deletes: 0 },
        _ => if fuel == 0 {
            RunView { result: None, store, creates: 0, deletes: 0 }
        } else {
            let (event, after) = serve(store, action, new_id);
            let (s2, a2) = step(s, event);
            let rest = run(s2, a2, after, new_id, (fuel - 1) as nat);
            RunView {
                creates: rest.creates + if action is CreateRecord { 1nat } else { 0nat },
                deletes: rest.deletes + if action is DeleteRecord { 1nat } else { 0nat },
                ..rest
            }
        },
    }
}

/// A whole run of `operation` for `domain` and `proof_value` against a provider
/// holding `store`.
pub open spec fn run_from_start(
    operation: Operation,
    domain: Seq<char>,
    proof_value: Seq<char>,
    store: Seq<TxtRecordView>,
    new_id: Seq<char>,
) -> RunView {
    let (s, a) = start(operation, domain, proof_value);
    run(s, a, store, new_id, store.len() + 4)
}

/// No two records share an identifier.
pub open spec fn ids_unique(store: Seq<TxtRecordView>) -> bool {
    forall|i: int, j: int|
        0 <= i < store.len() && 0 <= j < store.len() && store[i].record_id == store[j].record_id
            ==> i == j
}

/// The identifiers collected for `value` are exactly those of the records
/// holding `value`.
pub proof fn lemma_ids_with_value(records: Seq<TxtRecordView>, value: Seq<char>)
    ensures
        ids_with_value(records, value).len() <= records.len(),
        forall|x: Seq<char>|
            ids_with_value(records, value).contains(x) <==> exists|k: int|
                0 <= k < records.len() && records[k].value == value && records[k].record_id == x,
    decreases records.len(),
{
    if records.len() > 0 {
        let init = records.drop_last();
        lemma_ids_with_value(init, value);
        let ids = ids_with_value(records, value);
        let rest = ids_with_value(init, value);
        assert forall|x: Seq<char>| ids.contains(x) implies exists|k: int|
            0 <= k < records.len() && records[k].value == value && records[k].record_id == x by {
            if rest.contains(x) {
                let k = choose|k: int|
                    0 <= k < init.len() && init[k].value == value && init[k].record_id == x;
                assert(records[k] == init[k]);
            } else {
                let i = choose|i: int| 0 <= i < ids.len() && ids[i] == x;
                assert(ids[i] == records.last().record_id);
            }
        }
        assert forall|x: Seq<char>|
            (exists|k: int|
                0 <= k < records.len() && records[k].value == value && records[k].record_id
                    == x) implies ids.contains(x) by {
            let k = choose|k: int|
                0 <= k < records.len() && records[k].value == value && records[k].record_id == x;
            if k < init.len() {
                assert(init[k] == records[k]);
                assert(rest.contains(x));
                let i = choose|i: int| 0 <= i < rest.len() && rest[i] == x;
                assert(ids[i] == x);
            } else {
                assert(ids[ids.len() - 1] == x);
            }
        }
    }
}

/// Provisioning twice in a row for the same domain and proof creates at most
/// one record: the second run finds the proof in place and changes nothing.
pub proof fn law_provision_twice(
    domain: Seq<char>,
    proof_value: Seq<char>,
    store: Seq<TxtRecordView>,
    new_id: Seq<char>,
)
    ensures
        ({
            let first = run_from_start(Operation::Provision, domain, proof_value, store, new_id);
            let second = run_from_start(Operation::Provision, domain, proof_value, first.store, new_id);
            &&& first.result is Some
            &&& second.result is Some
            &&& first.creates + second.creates <= 1
            &&& second.creates == 0
            &&& second.deletes == 0
            &&& second.store == first.store
            &&& first.result == Some(Ok::<(), ReconcileErrorView>(())) ==> second.result == Some(
                Ok::<(), ReconcileErrorView>(()),
            )
        }),
{
    let (s, a) = start(Operation::Provision, domain, proof_value);
    let fuel = (store.len() + 4) as nat;
    let (s1, a1) = step(s, EventView::Listed(Ok(store)));
    assert(run(s, a, store, new_id, fuel) == run(s1, a1, store, new_id, (fuel - 1) as nat));
    if !has_value(store, proof_value) && store.len() == 0 {
        let created = store.push(
            TxtRecordView {
                record_id: new_id,
                name: s.record_name,
                record_type: TXT_RECORD_TYPE@,
                value: proof_value,
            },
        );
        let (s2, a2) = step(s1, EventView::Created(Ok(())));
        let (s3, a3) = step(s2, EventView::Settled);
        assert(run(s2, a2, created, new_id, 2) == run(s3, a3, created, new_id, 1));
        assert(run(s1, a1, store, new_id, 3).store == created);
        assert(created[0].value == proof_value);
        let (t1, b1) = step(s, EventView::Listed(Ok(created)));
        assert(run(s, a, created, new_id, 5) == run(t1, b1, created, new_id, 4));
    }
}
/// Cleaning when no record holds the proof succeeds and changes nothing.
pub proof fn law_clean_without_match(
    domain: Seq<char>,
    proof_value: Seq<char>,
    store: Seq<TxtRecordView>,
    new_id: Seq<char>,
)
    requires
        forall|k: int| 0 <= k < store.len() ==> store[k].value != proof_value,
    ensures
        run_from_start(Operation::Clean, domain, proof_value, store, new_id) == (RunView {
            result: Some(Ok(())),
            store,
            creates: 0,
            deletes: 0,
        }),
{
    let (s, a) = start(Operation::Clean, domain, proof_value);
    let fuel = (store.len() + 4) as nat;
    let (s1, a1) = step(s, EventView::Listed(Ok(store)));
    assert(run(s, a, store, new_id, fuel) == run(s1, a1, store, new_id, (fuel - 1) as nat));
    lemma_ids_with_value(store, proof_value);
    let ids = ids_with_value(store, proof_value);
    if ids.len() > 0 {
        assert(ids.contains(ids[0]));
    }
}

/// Runs the remaining deletions `ids[next..]` of a cleaning run against a
/// provider that grants them all.
proof fn lemma_run_deletions(
    s: ReconcilerView,
    store: Seq<TxtRecordView>,
    new_id: Seq<char>,
    fuel: nat,
)
    requires
        s.phase is Deleting,
        s.phase->next < s.phase->ids.len(),
        s.phase->failures.len() == 0,
        fuel >= s.phase->ids.len() - s.phase->next,
    ensures
        ({
            let ids = s.phase->ids;
            let next = s.phase->next;
            let o = run(
                s,
                ActionView::DeleteRecord { zone: s.zone, record_id: ids[next as int] },
                store,
                new_id,
                fuel,
            );
            &&& o.result == Some(Ok::<(), ReconcileErrorView>(()))
            &&& o.creates == 0
            &&& forall|r: TxtRecordView|
                o.store.contains(r) <==> store.contains(r) && !ids.subrange(
                    next as int,
                    ids.len() as int,
                ).contains(r.record_id)
        }),
    decreases s.phase->ids.len() - s.phase->next,
{
    broadcast use vstd::seq_lib::group_filter_ensures;

    let ids = s.phase->ids;
    let next = s.phase->next;
    let id = ids[next as int];
    let a = ActionView::DeleteRecord { zone: s.zone, record_id: id };
    let after = store.filter(|r: TxtRecordView| r.record_id != id);
    let (s2, a2) = step(s, EventView::Deleted(Ok(())));
    let o = run(s, a, store, new_id, fuel);
    let o2 = run(s2, a2, after, new_id, (fuel - 1) as nat);
    assert(o.result == o2.result && o.store == o2.store && o.creates == o2.creates);
    let tail = ids.subrange(next as int, ids.len() as int);
    let keep = |r: TxtRecordView| r.record_id != id;
    assert(after == store.filter(keep));
    assert forall|r: TxtRecordView| after.contains(r) <==> store.contains(r) && r.record_id != id by {
        if after.contains(r) {
            store.lemma_filter_contains_rev(keep, r);
            let i = choose|i: int| 0 <= i < after.len() && after[i] == r;
            assert(keep(after[i]));
        }
        if store.contains(r) && r.record_id != id {
            let k = choose|k: int| 0 <= k < store.len() && store[k] == r;
            assert(after.contains(store[k]));
        }
    }
    if next + 1 < ids.len() {
        lemma_run_deletions(s2, after, new_id, (fuel - 1) as nat);
        let rest = ids.subrange(next + 1 as int, ids.len() as int);
        assert(tail =~= seq![id] + rest);
        assert forall|x: Seq<char>| tail.contains(x) <==> x == id || rest.contains(x) by {
            if tail.contains(x) && x != id {
                let i = choose|i: int| 0 <= i < tail.len() && tail[i] == x;
                assert(rest[i - 1] == x);
            }
            if rest.contains(x) {
                let i = choose|i: int| 0 <= i < rest.len() && rest[i] == x;
                assert(tail[i + 1] == x);
            }
            if x == id {
                assert(tail[0] == x);
            }
        }
    } else {
        assert(tail =~= seq![id]);
        assert forall|x: Seq<char>| tail.contains(x) <==> x == id by {
            if x == id {
                assert(tail[0] == x);
            }
        }
    }
}

/// Cleaning removes exactly the records that hold the proof: every record
/// with another value is still listed afterwards, and none with the proof is.
pub proof fn law_clean_keeps_others(
    domain: Seq<char>,
    proof_value: Seq<char>,
    store: Seq<TxtRecordView>,
    new_id: Seq<char>,
)
    requires
        ids_unique(store),
    ensures
        ({
            let o = run_from_start(Operation::Clean, domain, proof_value, store, new_id);
            &&& o.result == Some(Ok::<(), ReconcileErrorView>(()))
            &&& o.creates == 0
            &&& forall|r: TxtRecordView|
                o.store.contains(r) <==> store.contains(r) && r.value != proof_value
        }),
{
    let (s, a) = start(Operation::Clean, domain, proof_value);
    let fuel = (store.len() + 4) as nat;
    let (s1, a1) = step(s, EventView::Listed(Ok(store)));
    assert(run(s, a, store, new_id, fuel) == run(s1, a1, store, new_id, (fuel - 1) as nat));
    lemma_ids_with_value(store, proof_value);
    let ids = ids_with_value(store, proof_value);
    assert forall|r: TxtRecordView| store.contains(r) implies r.value == proof_value <==> ids.contains(
        r.record_id,
    ) by {
        let j = choose|j: int| 0 <= j < store.len() && store[j] == r;
        if ids.contains(r.record_id) {
            let k = choose|k: int|
                0 <= k < store.len() && store[k].value == proof_value && store[k].record_id
                    == r.record_id;
            assert(k == j);
        }
        if r.value == proof_value {
            assert(store[j].value == proof_value && store[j].record_id == r.record_id);
        }
    }
    if ids.len() > 0 {
        lemma_run_deletions(s1, store, new_id, (fuel - 1) as nat);
        assert(ids.subrange(0, ids.len() as int) =~= ids);
    } else {
        assert forall|r: TxtRecordView| store.contains(r) implies r.value != proof_value by {
            if r.value == proof_value {
                let j = choose|j: int| 0 <= j < store.len() && store[j] == r;
                assert(ids.contains(r.record_id));
            }
        }
    }
}

} // verus!
