//! What holds of the spares over several steps of handles.
//!
//! The steps are those that a pool takes on its [`Spares`](crate::spares::Spares)
//! under the lock: an acquisition takes the [`top`] off and leaves
//! [`below_top`], and the scope end of a handle leaves [`at_scope_end`]. The
//! laws speak of one thread's steps with no step of another thread in between.

use vstd::prelude::*;

use crate::spares::at_scope_end;
use crate::spares::below_top;
use crate::spares::top;

verus! {

/// The spares after a run of handles of which each is acquired only after the
/// scope of the one before has ended. `held` lists what each handle holds when
/// its scope ends, in the order of the handles.
pub open spec fn after_cycles<T>(spares: Seq<T>, held: Seq<T>) -> Seq<T>
    decreases held.len(),
{
    if held.len() == 0 {
        spares
    } else {
        after_cycles(at_scope_end(below_top(spares), Some(held.first())), held.drop_first())
    }
}

/// The spares after the scopes of several handles have ended one after the
/// other, none of them acquired in between. `held` lists what each handle holds
/// when its scope ends, in the order in which the scopes end.
pub open spec fn after_scope_ends<T>(spares: Seq<T>, held: Seq<T>) -> Seq<T>
    decreases held.len(),
{
    if held.len() == 0 {
        spares
    } else {
        after_scope_ends(at_scope_end(spares, Some(held.first())), held.drop_first())
    }
}

/// Return at scope end. When the scope of a handle ends, the pool has exactly
/// one spare more than the acquisition left, and the new top is what the handle
/// held. From an empty pool, acquisition and scope end leave exactly that one
/// spare.
pub proof fn law_return_at_scope_end<T>(spares: Seq<T>, held: T)
    ensures
        at_scope_end(below_top(spares), Some(held)).len() == below_top(spares).len() + 1,
        top(at_scope_end(below_top(spares), Some(held))) == Some(held),
        spares.len() == 0 ==> at_scope_end(below_top(spares), Some(held)) == seq![held],
{
    if spares.len() == 0 {
        assert(spares.push(held) =~= seq![held]);
    }
}

/// Reuse. An acquisition right after the scope of a handle has ended takes what
/// that handle held, as it was left, and the pool is again as it was before the
/// scope ended: one spare fewer.
pub proof fn law_reuse<T>(spares: Seq<T>, held: T)
    ensures
        top(at_scope_end(spares, Some(held))) == Some(held),
        below_top(at_scope_end(spares, Some(held))) == spares,
        below_top(at_scope_end(spares, Some(held))).len() == at_scope_end(
            spares,
            Some(held),
        ).len() - 1,
{
    assert(spares.push(held).drop_last() =~= spares);
}

/// No double count. Handles that follow one another without overlap keep using
/// one instance: a pool that was empty before the first of them has one spare
/// after the last, however many they were, and a pool that had spares has as
/// many as before. The top is what the last handle held.
pub proof fn law_no_double_count<T>(spares: Seq<T>, held: Seq<T>)
    requires
        held.len() >= 1,
    ensures
        spares.len() <= 1 ==> after_cycles(spares, held) == seq![held.last()],
        spares.len() >= 1 ==> after_cycles(spares, held).len() == spares.len(),
        top(after_cycles(spares, held)) == Some(held.last()),
    decreases held.len(),
{
    let next = at_scope_end(below_top(spares), Some(held.first()));
    let rest = held.drop_first();
    if spares.len() <= 1 {
        assert(next =~= seq![held.first()]);
    }
    if rest.len() == 0 {
        assert(after_cycles(next, rest) == next);
        assert(held.first() == held.last());
    } else {
        law_no_double_count(next, rest);
        assert(rest.last() == held.last());
    }
}

/// Overlap. Two acquisitions from an empty pool find no spare and leave it
/// empty; when the scopes of both handles have ended the pool has two spares:
/// what the two handles held, the one whose scope ended last on top.
pub proof fn law_overlap<T>(first: T, second: T)
    ensures
        top(Seq::<T>::empty()) == None::<T>,
        top(below_top(Seq::<T>::empty())) == None::<T>,
        below_top(below_top(Seq::<T>::empty())) == Seq::<T>::empty(),
        at_scope_end(at_scope_end(Seq::<T>::empty(), Some(first)), Some(second)) == seq![
            first,
            second,
        ],
{
    assert(Seq::<T>::empty().push(first).push(second) =~= seq![first, second]);
}

/// Extraction suppresses the return. A handle whose instance was moved out holds
/// nothing when its scope ends, and the spares stay exactly as they are.
pub proof fn law_extract_suppresses_return<T>(spares: Seq<T>)
    ensures
        at_scope_end(spares, None) == spares,
{
}

/// Scope ends add up. When the scopes of several handles have ended, the spares
/// are those from before, followed by what the handles held, in the order in
/// which their scopes ended.
pub proof fn law_scope_ends_add_up<T>(spares: Seq<T>, held: Seq<T>)
    ensures
        after_scope_ends(spares, held) == spares + held,
    decreases held.len(),
{
    if held.len() == 0 {
        assert(spares + held =~= spares);
    } else {
        let next = at_scope_end(spares, Some(held.first()));
        law_scope_ends_add_up(next, held.drop_first());
        assert(next + held.drop_first() =~= spares + held);
    }
}

/// Clear. Once the spares have been discarded, the pool holds what came back
/// after that and nothing else: the handles that were out at that time come back
/// as usual, and the pool has as many spares as scopes have ended since.
pub proof fn law_clear<T>(held: Seq<T>)
    ensures
        after_scope_ends(Seq::<T>::empty(), held) == held,
        after_scope_ends(Seq::<T>::empty(), held).len() == held.len(),
{
    law_scope_ends_add_up(Seq::<T>::empty(), held);
    assert(Seq::<T>::empty() + held =~= held);
}

} // verus!
