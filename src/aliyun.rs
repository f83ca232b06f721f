//! What the Aliyun DNS client decides: which of the records of a zone are
//! challenge records.
//!
//! The Aliyun API lists every record of a zone; the challenge records are the
//! `TXT` records whose name (relative to the zone) is the challenge name.
use vstd::prelude::*;

use crate::reconcile::{records_view, TxtRecord, TxtRecordView, TXT_RECORD_TYPE};

verus! {

/// Whether `r` is a `TXT` record named `record_name`.
pub open spec fn is_challenge_record(r: TxtRecordView, record_name: Seq<char>) -> bool {
    r.record_type == TXT_RECORD_TYPE@ && r.name == record_name
}

/// The records of `records` that are `TXT` records named `record_name`.
pub open spec fn challenge_records(records: Seq<TxtRecordView>, record_name: Seq<char>) -> Seq<
    TxtRecordView,
>
    decreases records.len(),
{
    if records.len() == 0 {
        Seq::empty()
    } else {
        let rest = challenge_records(records.drop_last(), record_name);
        if is_challenge_record(records.last(), record_name) {
            rest.push(records.last())
        } else {
            rest
        }
    }
}

/// Keeps the `TXT` records named `record_name`, in their order.
pub fn select_challenge_records(records: Vec<TxtRecord>, record_name: &str) -> (r: Vec<TxtRecord>)
    ensures
        records_view(r@) == challenge_records(records_view(records@), record_name@),
{
    let ghost rv = records_view(records@);
    let txt = TXT_RECORD_TYPE.to_owned();
    let name = record_name.to_owned();
    let mut out: Vec<TxtRecord> = Vec::new();
    let mut i: usize = 0;
    while i < records.len()
        invariant
            i <= records@.len(),
            rv == records_view(records@),
            txt@ == TXT_RECORD_TYPE@,
            name@ == record_name@,
            records_view(out@) == challenge_records(rv.take(i as int), record_name@),
        decreases records@.len() - i,
    {
        assert(rv.take(i + 1).drop_last() =~= rv.take(i as int));
        let ghost before = out@;
        let r = &records[i];
        if r.record_type == txt && r.name == name {
            out.push(r.clone_record());
            assert(records_view(out@) =~= records_view(before).push(rv[i as int]));
        }
        i = i + 1;
    }
    assert(rv.take(records@.len() as int) =~= rv);
    out
}

} // verus!
