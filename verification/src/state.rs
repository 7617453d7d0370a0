//! Mathematical model of the registry: the abstract state that the
//! executable registry is proved to track, the transition that every
//! ownership change performs, and the consistency invariant between the
//! item store and the owner index.

use vstd::prelude::*;

verus! {

/// Abstract value of one registered item: its owner and the approvals
/// currently granted on it, each approval tagged with its sequence number.
pub struct TokenView {
    pub owner_id: Seq<char>,
    pub approved_account_ids: Map<Seq<char>, u64>,
}

/// Abstract state of the whole registry: the item store and the owner
/// index, which must stay coherent (see [`coherent`]).
#[verifier::ext_equal]
pub struct RegistryView {
    pub tokens: Map<Seq<char>, TokenView>,
    pub index: Map<Seq<char>, Set<Seq<char>>>,
}

/// The bidirectional consistency invariant: an item records `o` as its
/// owner exactly when the owner index lists the item under `o`.
pub open spec fn coherent(s: RegistryView) -> bool {
    &&& forall|id: Seq<char>| #[trigger] s.tokens.contains_key(id) ==> {
        let o = s.tokens[id].owner_id;
        s.index.contains_key(o) && s.index[o].contains(id)
    }
    &&& forall|o: Seq<char>, id: Seq<char>|
        s.index.contains_key(o) && #[trigger] s.index[o].contains(id) ==> s.tokens.contains_key(
            id,
        ) && s.tokens[id].owner_id == o
}

/// Whether `caller` may transfer the item: the owner always may, and any
/// other account only when it holds an approval whose sequence number
/// equals the one it presents.
pub open spec fn authorized(t: TokenView, caller: Seq<char>, approval_seq: u64) -> bool {
    ||| caller == t.owner_id
    ||| (t.approved_account_ids.contains_key(caller) && t.approved_account_ids[caller]
        == approval_seq)
}

/// The owner index after `id` leaves `o`'s set of items.
pub open spec fn index_remove(
    index: Map<Seq<char>, Set<Seq<char>>>,
    o: Seq<char>,
    id: Seq<char>,
) -> Map<Seq<char>, Set<Seq<char>>> {
    if index.contains_key(o) {
        index.insert(o, index[o].remove(id))
    } else {
        index
    }
}

/// The owner index after `id` joins `o`'s set of items.
pub open spec fn index_add(
    index: Map<Seq<char>, Set<Seq<char>>>,
    o: Seq<char>,
    id: Seq<char>,
) -> Map<Seq<char>, Set<Seq<char>>> {
    if index.contains_key(o) {
        index.insert(o, index[o].insert(id))
    } else {
        index.insert(o, Set::empty().insert(id))
    }
}

/// The one transition every completed ownership change performs: the item
/// `id` is reassigned to `new_owner` carrying exactly `new_approvals`, and
/// the owner index moves `id` from the previous owner's set to
/// `new_owner`'s. A direct transfer uses an empty `new_approvals`; the
/// compensating transfer of the resolution step restores the approvals
/// captured before the optimistic change.
pub open spec fn apply_move(
    s: RegistryView,
    id: Seq<char>,
    new_owner: Seq<char>,
    new_approvals: Map<Seq<char>, u64>,
) -> RegistryView
    recommends
        s.tokens.contains_key(id),
{
    RegistryView {
        tokens: s.tokens.insert(
            id,
            TokenView { owner_id: new_owner, approved_account_ids: new_approvals },
        ),
        index: index_add(index_remove(s.index, s.tokens[id].owner_id, id), new_owner, id),
    }
}

/// The state after a fresh item `id`, owned by `owner`, enters the registry.
pub open spec fn apply_register(
    s: RegistryView,
    id: Seq<char>,
    owner: Seq<char>,
    approvals: Map<Seq<char>, u64>,
) -> RegistryView {
    RegistryView {
        tokens: s.tokens.insert(id, TokenView { owner_id: owner, approved_account_ids: approvals }),
        index: index_add(s.index, owner, id),
    }
}

/// Whether the resolution step must compensate: the item still exists and
/// is still held by the receiver of the optimistic transfer.
pub open spec fn rollback_needed(s: RegistryView, receiver: Seq<char>, id: Seq<char>) -> bool {
    s.tokens.contains_key(id) && s.tokens[id].owner_id == receiver
}

} // verus!
