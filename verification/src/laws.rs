//! The general properties of the registry's transition system, stated and
//! proved once over the abstract state. The executable operations ensure
//! that their effect equals the corresponding abstract transition, so these
//! laws carry over to every reachable state of the running registry.

use vstd::prelude::*;

use crate::state::{
    apply_move, apply_register, authorized, coherent, rollback_needed, RegistryView, TokenView,
};

verus! {

/// In every coherent state, `item.owner == o` holds if and only if the
/// owner index lists the item under `o`: the two sides of the registry can
/// never disagree.
pub proof fn lemma_coherent_bidirectional(s: RegistryView, id: Seq<char>, o: Seq<char>)
    requires
        coherent(s),
    ensures
        (s.tokens.contains_key(id) && s.tokens[id].owner_id == o) <==> (s.index.contains_key(o)
            && s.index[o].contains(id)),
{
}

/// Moving an existing item to a new owner preserves coherence; this is the
/// invariant-preservation argument behind both the direct transfer and the
/// compensating transfer of the resolution step.
pub proof fn lemma_move_preserves_coherent(
    s: RegistryView,
    id: Seq<char>,
    new_owner: Seq<char>,
    new_approvals: Map<Seq<char>, u64>,
)
    requires
        coherent(s),
        s.tokens.contains_key(id),
    ensures
        coherent(apply_move(s, id, new_owner, new_approvals)),
{
    let s2 = apply_move(s, id, new_owner, new_approvals);
    let from = s.tokens[id].owner_id;
    assert forall|t: Seq<char>| #[trigger] s2.tokens.contains_key(t) implies {
        let o = s2.tokens[t].owner_id;
        s2.index.contains_key(o) && s2.index[o].contains(t)
    } by {
        if t != id {
            assert(s.tokens.contains_key(t));
            let o = s.tokens[t].owner_id;
            assert(s.index[o].contains(t));
        }
    }
    assert forall|o: Seq<char>, t: Seq<char>|
        s2.index.contains_key(o) && #[trigger] s2.index[o].contains(t) implies s2.tokens.contains_key(
        t,
    ) && s2.tokens[t].owner_id == o by {
        if o == new_owner {
            if t != id {
                assert(s.index.contains_key(o) && s.index[o].contains(t));
            }
        } else {
            assert(t != id || s.tokens[id].owner_id == o);
            assert(s.index.contains_key(o) && s.index[o].contains(t));
        }
    }
}

/// Registering a fresh item under an owner preserves coherence.
pub proof fn lemma_register_preserves_coherent(
    s: RegistryView,
    id: Seq<char>,
    owner: Seq<char>,
    approvals: Map<Seq<char>, u64>,
)
    requires
        coherent(s),
        !s.tokens.contains_key(id),
    ensures
        coherent(apply_register(s, id, owner, approvals)),
{
    let s2 = apply_register(s, id, owner, approvals);
    assert forall|o: Seq<char>, t: Seq<char>|
        s2.index.contains_key(o) && #[trigger] s2.index[o].contains(t) implies s2.tokens.contains_key(
        t,
    ) && s2.tokens[t].owner_id == o by {
        if !(o == owner && t == id) {
            assert(s.index.contains_key(o) && s.index[o].contains(t));
        }
    }
}

/// A completed transfer leaves the item with no approved operators: the
/// move installs exactly the empty approvals map.
pub proof fn lemma_transfer_clears_approvals(s: RegistryView, id: Seq<char>, receiver: Seq<char>)
    ensures
        apply_move(s, id, receiver, Map::empty()).tokens[id].approved_account_ids
            =~= Map::<Seq<char>, u64>::empty(),
{
}

/// After a compensating transfer has returned the item to its previous
/// owner, the receiver no longer holds it, so resolving the same notify
/// transfer a second time finds no compensation to perform and leaves
/// ownership untouched.
pub proof fn lemma_resolution_idempotent(
    s: RegistryView,
    id: Seq<char>,
    previous_owner: Seq<char>,
    receiver: Seq<char>,
    approvals: Map<Seq<char>, u64>,
)
    requires
        rollback_needed(s, receiver, id),
        previous_owner != receiver,
    ensures
        !rollback_needed(apply_move(s, id, previous_owner, approvals), receiver, id),
{
}

/// An account that is neither the owner nor the holder of a matching
/// approval is never authorized, whatever sequence number it presents.
pub proof fn lemma_authorization_boundary(t: TokenView, caller: Seq<char>, approval_seq: u64)
    requires
        caller != t.owner_id,
        t.approved_account_ids.contains_key(caller) ==> t.approved_account_ids[caller]
            != approval_seq,
    ensures
        !authorized(t, caller, approval_seq),
{
}

} // verus!
