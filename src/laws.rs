//! Properties of the registry that hold across any sequence of operations.
use crate::pushnotification::{already_sent, evolves};
use crate::state::{MainData, RecordState};
use vstd::prelude::*;

verus! {

/// At most one record exists for any notification id: every operation keeps
/// the registry well formed, and in a well-formed registry two records with
/// the same id are the same record.
pub proof fn lemma_at_most_one_record(d: MainData)
    requires
        d.wf(),
    ensures
        forall|i: int, j: int|
            0 <= i < d.records().len() && 0 <= j < d.records().len() && d.records()[i].id
                == d.records()[j].id ==> i == j,
{
}

/// A sent flag never goes back from true to false: the change that each
/// operation makes to the registry composes, so it holds over any number of calls.
pub proof fn lemma_evolves_transitive(
    a: Map<Seq<char>, RecordState>,
    b: Map<Seq<char>, RecordState>,
    c: Map<Seq<char>, RecordState>,
)
    requires
        evolves(a, b),
        evolves(b, c),
    ensures
        evolves(a, c),
        forall|id: Seq<char>| a.contains_key(id) && a[id].sent ==> c.contains_key(id) && c[id].sent,
{
    assert forall|id: Seq<char>| #[trigger] a.contains_key(id) implies c.contains_key(id)
        && c[id].updater == a[id].updater && (a[id].sent ==> c[id].sent) by {
        assert(b.contains_key(id));
    }
}

/// A notification is announced at most once: both operations that emit the
/// delivery event fail where `already_sent` holds, each success makes it hold,
/// and once it holds it holds in every later registry.
pub proof fn lemma_sent_stays_sent(
    a: Map<Seq<char>, RecordState>,
    b: Map<Seq<char>, RecordState>,
    id: Seq<char>,
)
    requires
        already_sent(a, id),
        evolves(a, b),
    ensures
        already_sent(b, id),
{
    assert(a.contains_key(id));
}

} // verus!
