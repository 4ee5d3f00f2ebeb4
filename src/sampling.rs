//! Existence sampling of one table: a few keys read from the primary region
//! are looked up in the secondary, and each miss becomes a mismatch message.

use vstd::prelude::*;
use crate::region::TableName;
use crate::text::{owned, texts};
use crate::validation::TableValidation;

verus! {

/// How many items are sampled from the primary region.
pub fn sample_size() -> (r: usize)
    ensures
        r == 10,
{
    10
}

/// The result of looking one sampled key up in the secondary region.
#[derive(Debug, Clone, Copy, PartialEq, Eq, Structural)]
pub enum LookupOutcome {
    Found,
    Missing,
    Failed,
}

/// The mismatch message for one lookup, if it is one.
pub open spec fn lookup_message(id: Seq<char>, outcome: LookupOutcome) -> Option<Seq<char>> {
    match outcome {
        LookupOutcome::Found => None,
        LookupOutcome::Missing => Some("Item "@ + id + " not found in DR"@),
        LookupOutcome::Failed => Some("Item "@ + id + " could not be checked in DR"@),
    }
}

/// The mismatch messages of a sample, in sampling order.
pub open spec fn mismatch_messages(ids: Seq<Seq<char>>, outcomes: Seq<LookupOutcome>) -> Seq<
    Seq<char>,
>
    decreases ids.len(),
{
    if ids.len() == 0 || outcomes.len() == 0 {
        Seq::empty()
    } else {
        let before = mismatch_messages(ids.drop_last(), outcomes.drop_last());
        match lookup_message(ids.last(), outcomes.last()) {
            Some(m) => before.push(m),
            None => before,
        }
    }
}

/// One message per sampled key that is missing from the secondary region or
/// could not be looked up there; `outcomes[i]` is the lookup of `ids[i]`.
pub fn sample_mismatches(ids: &Vec<String>, outcomes: &Vec<LookupOutcome>) -> (r: Vec<String>)
    requires
        ids@.len() == outcomes@.len(),
    ensures
        texts(r@) == mismatch_messages(texts(ids@), outcomes@),
{
    let mut out: Vec<String> = Vec::new();
    let mut i: usize = 0;
    while i < ids.len()
        invariant
            i <= ids@.len(),
            ids@.len() == outcomes@.len(),
            texts(out@) == mismatch_messages(texts(ids@).take(i as int), outcomes@.take(i as int)),
        decreases ids@.len() - i,
    {
        proof {
            assert(texts(ids@).take(i + 1).drop_last() =~= texts(ids@).take(i as int));
            assert(outcomes@.take(i + 1).drop_last() =~= outcomes@.take(i as int));
        }
        let id = ids[i].as_str();
        match outcomes[i] {
            LookupOutcome::Found => {},
            LookupOutcome::Missing => {
                out.push(owned("Item ").concat(id).concat(" not found in DR"));
            },
            LookupOutcome::Failed => {
                out.push(owned("Item ").concat(id).concat(" could not be checked in DR"));
            },
        }
        assert(texts(out@) =~= mismatch_messages(
            texts(ids@).take(i + 1),
            outcomes@.take(i + 1),
        ));
        i = i + 1;
    }
    proof {
        assert(texts(ids@).take(i as int) =~= texts(ids@));
        assert(outcomes@.take(i as int) =~= outcomes@);
    }
    out
}

/// The validation of one table from its two item counts and its sample.
pub fn validate_table_data(
    table_name: TableName,
    primary_count: usize,
    dr_count: usize,
    ids: &Vec<String>,
    outcomes: &Vec<LookupOutcome>,
) -> (r: TableValidation)
    requires
        ids@.len() == outcomes@.len(),
    ensures
        r.table_name == table_name,
        r.primary_count == primary_count,
        r.dr_count == dr_count,
        texts(r.sample_mismatches@) == mismatch_messages(texts(ids@), outcomes@),
{
    TableValidation {
        table_name,
        primary_count,
        dr_count,
        sample_mismatches: sample_mismatches(ids, outcomes),
    }
}

} // verus!
