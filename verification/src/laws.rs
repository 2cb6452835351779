//! General laws of the slot's primitive operations, stated over the
//! mathematical model and proved once and for all.

use crate::concurrent_option::ConcurrentOption;
use vstd::multiset::Multiset;
use vstd::prelude::*;
use vstd::seq_lib::group_to_multiset_ensures;

verus! {

/// The effect of one initialize-if-empty attempt on the slot's contents:
/// an empty slot receives the value, an occupied slot is left alone.
pub open spec fn initialize_step<T>(s: Option<T>, v: T) -> Option<T> {
    if s is None {
        Some(v)
    } else {
        s
    }
}

/// Whether one initialize-if-empty attempt succeeds: exactly on an empty
/// slot.
pub open spec fn initialize_accepted<T>(s: Option<T>) -> bool {
    s is None
}

/// The slot's contents after a run of initialize-if-empty attempts with the
/// values `vs`, in order.
pub open spec fn initialize_fold<T>(s: Option<T>, vs: Seq<T>) -> Option<T>
    decreases vs.len(),
{
    if vs.len() == 0 {
        s
    } else {
        initialize_fold(initialize_step(s, vs[0]), vs.drop_first())
    }
}

/// How many attempts of the run are accepted.
pub open spec fn initialize_successes<T>(s: Option<T>, vs: Seq<T>) -> nat
    decreases vs.len(),
{
    if vs.len() == 0 {
        0nat
    } else {
        (if initialize_accepted(s) {
            1nat
        } else {
            0nat
        }) + initialize_successes(initialize_step(s, vs[0]), vs.drop_first())
    }
}

/// On an occupied slot, no initialize-if-empty attempt is ever accepted and
/// the contents never change.
pub proof fn lemma_initialize_occupied_refuses_all<T>(s: Option<T>, vs: Seq<T>)
    requires
        s is Some,
    ensures
        initialize_successes(s, vs) == 0,
        initialize_fold(s, vs) == s,
    decreases vs.len(),
{
    if vs.len() > 0 {
        lemma_initialize_occupied_refuses_all(s, vs.drop_first());
    }
}

/// Exclusivity of initialization: of any run of initialize-if-empty attempts
/// on an empty slot, exactly one — the first — is accepted, and the slot
/// afterwards holds exactly that winner's value.
pub proof fn lemma_initialize_exactly_one_winner<T>(vs: Seq<T>)
    requires
        vs.len() > 0,
    ensures
        initialize_successes(None::<T>, vs) == 1,
        initialize_fold(None::<T>, vs) == Some(vs[0]),
{
    lemma_initialize_occupied_refuses_all(Some(vs[0]), vs.drop_first());
}

/// The contents of an optional value as a multiset: one element or none.
pub open spec fn contents<T>(s: Option<T>) -> Multiset<T> {
    match s {
        Some(x) => Multiset::empty().insert(x),
        None => Multiset::empty(),
    }
}

/// The slot's contents after a run of replace operations with the values
/// `vs`, in order.
pub open spec fn replace_fold<T>(s: Option<T>, vs: Seq<T>) -> Option<T>
    decreases vs.len(),
{
    if vs.len() == 0 {
        s
    } else {
        replace_fold(Some(vs[0]), vs.drop_first())
    }
}

/// Everything the run of replace operations displaces, as a multiset.
pub open spec fn replace_displaced<T>(s: Option<T>, vs: Seq<T>) -> Multiset<T>
    decreases vs.len(),
{
    if vs.len() == 0 {
        Multiset::empty()
    } else {
        contents(s).add(replace_displaced(Some(vs[0]), vs.drop_first()))
    }
}

/// No lost update: over any run of replace operations, the values displaced
/// plus the final contents are exactly the values passed in plus the initial
/// contents — nothing is returned twice and nothing is dropped silently.
pub proof fn lemma_replace_no_lost_update<T>(s: Option<T>, vs: Seq<T>)
    ensures
        replace_displaced(s, vs).add(contents(replace_fold(s, vs))) =~= contents(s).add(
            vs.to_multiset(),
        ),
    decreases vs.len(),
{
    broadcast use group_to_multiset_ensures;
    broadcast use vstd::multiset::group_multiset_axioms;

    if vs.len() == 0 {
        assert(vs.to_multiset().len() == 0);
        assert(vs.to_multiset() =~= Multiset::empty());
    } else {
        let v0 = vs[0];
        let rest = vs.drop_first();
        lemma_replace_no_lost_update(Some(v0), rest);
        assert(vs.remove(0) =~= rest);
        assert(rest.to_multiset() =~= vs.to_multiset().remove(v0));
        assert(vs.to_multiset().contains(v0));
        assert(vs.to_multiset() =~= rest.to_multiset().insert(v0));
        assert(replace_displaced(s, vs) == contents(s).add(replace_displaced(Some(v0), rest)));
        assert(replace_fold(s, vs) == replace_fold(Some(v0), rest));
        assert(replace_displaced(s, vs).add(contents(replace_fold(s, vs))) =~= contents(s).add(
            contents(Some(v0)).add(rest.to_multiset()),
        ));
        assert(contents(Some(v0)).add(rest.to_multiset()) =~= rest.to_multiset().insert(v0));
    }
}

/// Round trip: a slot created occupied with `v` answers `Some(v)` to a take
/// and is empty afterward.  The premises are the contracts of creating an
/// occupied slot and of taking from it; the conclusion pins the observed
/// results down to `v` alone.
pub proof fn lemma_occupied_take_round_trip<T>(
    created: ConcurrentOption<T>,
    taken: Option<T>,
    after: ConcurrentOption<T>,
    v: T,
)
    requires
        created.wf(),
        created@ == Some(v),
        taken == created@,
        after@ is None,
    ensures
        taken == Some(v),
        after@ is None,
{
}

} // verus!
