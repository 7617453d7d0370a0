//! The executable registry: the item store, the owner index, and the
//! atomic local ownership change that both the direct and the notify-style
//! transfer perform. Every operation is proved to track the abstract
//! transition system of [`crate::state`].

use vstd::hash_map::StringHashMap;
use vstd::prelude::*;

use crate::approvals::ApprovalMap;
use crate::errors::TransferError;
use crate::laws::{lemma_move_preserves_coherent, lemma_register_preserves_coherent};
use crate::state::{
    apply_move, apply_register, authorized, coherent, index_add, index_remove, rollback_needed,
    RegistryView, TokenView,
};
use crate::{AccountId, TokenId};

verus! {

/// One registered item: its current owner and the approvals granted on it.
pub struct Token {
    pub owner_id: AccountId,
    pub approved_account_ids: ApprovalMap,
}

impl View for Token {
    type V = TokenView;

    open spec fn view(&self) -> TokenView {
        TokenView {
            owner_id: self.owner_id@,
            approved_account_ids: self.approved_account_ids@,
        }
    }
}

impl Token {
    /// Validity of the approvals ledger held inside the item.
    pub open spec fn wf(&self) -> bool {
        self.approved_account_ids.wf()
    }

    /// Whether `claimed_operator`, presenting `claimed_seq`, may transfer
    /// this item: the owner always may; any other account only when it
    /// holds an approval whose stored sequence number equals the presented
    /// one.
    pub fn check_approval(&self, claimed_operator: &AccountId, claimed_seq: u64) -> (r: bool)
        requires
            self.wf(),
        ensures
            r == authorized(self@, claimed_operator@, claimed_seq),
    {
        if self.owner_id == *claimed_operator {
            return true;
        }
        match self.approved_account_ids.get(claimed_operator) {
            Some(stored_seq) => stored_seq == claimed_seq,
            None => false,
        }
    }
}

/// The set of item ids a vector of ids stands for.
pub open spec fn ids_set(s: Seq<TokenId>) -> Set<Seq<char>> {
    Set::new(|k: Seq<char>| exists|i: int| 0 <= i < s.len() && s[i]@ == k)
}

/// A copy of `ids` without every occurrence of `id`.
fn remove_id(ids: &Vec<TokenId>, id: &TokenId) -> (r: Vec<TokenId>)
    ensures
        ids_set(r@) == ids_set(ids@).remove(id@),
{
    let n = ids.len();
    let mut out: Vec<TokenId> = Vec::new();
    let mut i: usize = 0;
    while i < n
        invariant
            n == ids@.len(),
            i <= n,
            forall|j: int|
                0 <= j < out@.len() ==> #[trigger] out@[j]@ != id@ && exists|l: int|
                    0 <= l < i && ids@[l]@ == out@[j]@,
            forall|l: int|
                0 <= l < i && #[trigger] ids@[l]@ != id@ ==> exists|j: int|
                    0 <= j < out@.len() && out@[j]@ == ids@[l]@,
        decreases n - i,
    {
        let ghost out_before = out@;
        if !(ids[i] == *id) {
            let entry = ids[i].clone();
            out.push(entry);
        }
        proof {
            assert forall|j: int| 0 <= j < out@.len() implies #[trigger] out@[j]@ != id@ && exists|
                l: int,
            | 0 <= l < i + 1 && ids@[l]@ == out@[j]@ by {
                if j < out_before.len() {
                    assert(out@[j] == out_before[j]);
                    let l = choose|l: int| 0 <= l < i && ids@[l]@ == out_before[j]@;
                    assert(0 <= l < i + 1 && ids@[l]@ == out@[j]@);
                } else {
                    assert(ids@[i as int]@ == out@[j]@);
                }
            }
            assert forall|l: int| 0 <= l < i + 1 && #[trigger] ids@[l]@ != id@ implies exists|
                j: int,
            | 0 <= j < out@.len() && out@[j]@ == ids@[l]@ by {
                if l < i {
                    let j = choose|j: int| 0 <= j < out_before.len() && out_before[j]@ == ids@[l]@;
                    assert(out@[j]@ == ids@[l]@);
                } else {
                    assert(out@[out@.len() - 1]@ == ids@[l]@);
                }
            }
        }
        i += 1;
    }
    proof {
        assert(ids_set(out@) =~= ids_set(ids@).remove(id@)) by {
            assert forall|k: Seq<char>| #[trigger] ids_set(out@).contains(k) implies ids_set(
                ids@,
            ).remove(id@).contains(k) by {
                let j = choose|j: int| 0 <= j < out@.len() && out@[j]@ == k;
                let l = choose|l: int| 0 <= l < n && ids@[l]@ == out@[j]@;
                assert(ids@[l]@ == k);
            }
            assert forall|k: Seq<char>| #[trigger] ids_set(ids@).remove(id@).contains(k) implies ids_set(
                out@,
            ).contains(k) by {
                let l = choose|l: int| 0 <= l < ids@.len() && ids@[l]@ == k;
                let j = choose|j: int| 0 <= j < out@.len() && out@[j]@ == ids@[l]@;
                assert(out@[j]@ == k);
            }
        }
    }
    out
}

/// A copy of `ids` with `id` appended.
fn with_id(ids: &Vec<TokenId>, id: &TokenId) -> (r: Vec<TokenId>)
    ensures
        ids_set(r@) == ids_set(ids@).insert(id@),
{
    let n = ids.len();
    let mut out: Vec<TokenId> = Vec::new();
    let mut i: usize = 0;
    while i < n
        invariant
            n == ids@.len(),
            i <= n,
            out@.len() == i,
            forall|j: int| 0 <= j < i ==> out@[j]@ == ids@[j]@,
        decreases n - i,
    {
        let entry = ids[i].clone();
        out.push(entry);
        i += 1;
    }
    out.push(id.clone());
    proof {
        assert(ids_set(out@) =~= ids_set(ids@).insert(id@)) by {
            assert forall|k: Seq<char>| #[trigger] ids_set(out@).contains(k) implies ids_set(
                ids@,
            ).insert(id@).contains(k) by {
                let j = choose|j: int| 0 <= j < out@.len() && out@[j]@ == k;
                if j < out@.len() - 1 {
                    assert(ids@[j]@ == k);
                }
            }
            assert forall|k: Seq<char>| #[trigger] ids_set(ids@).insert(id@).contains(k) implies ids_set(
                out@,
            ).contains(k) by {
                if k == id@ {
                    assert(out@[out@.len() - 1]@ == k);
                } else {
                    let l = choose|l: int| 0 <= l < ids@.len() && ids@[l]@ == k;
                    assert(out@[l]@ == k);
                }
            }
        }
    }
    out
}

/// The registry itself: who administers it, which items exist, and who
/// owns what. The item store and the owner index are kept coherent by
/// every operation.
pub struct Contract {
    /// The account that administers the registry.
    pub owner_id: AccountId,
    pub(crate) tokens_per_owner: StringHashMap<Vec<TokenId>>,
    pub(crate) tokens_by_id: StringHashMap<Token>,
}

impl View for Contract {
    type V = RegistryView;

    closed spec fn view(&self) -> RegistryView {
        RegistryView {
            tokens: Map::new(
                |id: Seq<char>| self.tokens_by_id@.contains_key(id),
                |id: Seq<char>| self.tokens_by_id@[id]@,
            ),
            index: Map::new(
                |o: Seq<char>| self.tokens_per_owner@.contains_key(o),
                |o: Seq<char>| ids_set(self.tokens_per_owner@[o]@),
            ),
        }
    }
}

impl Contract {
    /// The account that administers the registry, as spoken of in contracts.
    pub closed spec fn admin(&self) -> Seq<char> {
        self.owner_id@
    }

    /// Validity of the approval ledgers stored inside the items.
    pub closed spec fn tokens_wf(&self) -> bool {
        forall|id: Seq<char>| #[trigger]
            self.tokens_by_id@.contains_key(id) ==> self.tokens_by_id@[id].wf()
    }

    /// The registry invariant: the two sides stay coherent and every stored
    /// approvals ledger is valid.
    pub open spec fn wf(&self) -> bool {
        coherent(self@) && self.tokens_wf()
    }

    /// An empty registry administered by `owner_id`.
    pub fn new(owner_id: AccountId) -> (c: Contract)
        ensures
            c.wf(),
            c@.tokens == Map::<Seq<char>, TokenView>::empty(),
            c@.index == Map::<Seq<char>, Set<Seq<char>>>::empty(),
            c.admin() == owner_id@,
    {
        let c = Contract {
            owner_id,
            tokens_per_owner: StringHashMap::new(),
            tokens_by_id: StringHashMap::new(),
        };
        proof {
            assert(c@.tokens =~= Map::<Seq<char>, TokenView>::empty());
            assert(c@.index =~= Map::<Seq<char>, Set<Seq<char>>>::empty());
        }
        c
    }

    /// Removes `token_id` from `account_id`'s set in the owner index.
    pub(crate) fn internal_remove_token_from_owner(&mut self, account_id: &AccountId, token_id: &TokenId)
        ensures
            final(self)@.index == index_remove(old(self)@.index, account_id@, token_id@),
            final(self)@.tokens == old(self)@.tokens,
            final(self).tokens_by_id == old(self).tokens_by_id,
            final(self).admin() == old(self).admin(),
    {
        let current = self.tokens_per_owner.get(account_id.as_str());
        match current {
            None => {
                proof {
                    assert(self@.index =~= index_remove(old(self)@.index, account_id@, token_id@));
                }
            },
            Some(ids) => {
                let new_ids = remove_id(ids, token_id);
                self.tokens_per_owner.insert(account_id.clone(), new_ids);
                proof {
                    assert(self@.index =~= index_remove(old(self)@.index, account_id@, token_id@));
                    assert(self@.tokens =~= old(self)@.tokens);
                }
            },
        }
    }

    /// Adds `token_id` to `account_id`'s set in the owner index, creating
    /// the set if the account owned nothing yet.
    pub(crate) fn internal_add_token_to_owner(&mut self, account_id: &AccountId, token_id: &TokenId)
        ensures
            final(self)@.index == index_add(old(self)@.index, account_id@, token_id@),
            final(self)@.tokens == old(self)@.tokens,
            final(self).tokens_by_id == old(self).tokens_by_id,
            final(self).admin() == old(self).admin(),
    {
        let current = self.tokens_per_owner.get(account_id.as_str());
        let new_ids = match current {
            None => {
                let single = vec![token_id.clone()];
                proof {
                    assert(ids_set(single@) =~= Set::empty().insert(token_id@)) by {
                        assert(single@[0]@ == token_id@);
                    }
                }
                single
            },
            Some(ids) => with_id(ids, token_id),
        };
        self.tokens_per_owner.insert(account_id.clone(), new_ids);
        proof {
            assert(self@.index =~= index_add(old(self)@.index, account_id@, token_id@));
            assert(self@.tokens =~= old(self)@.tokens);
        }
    }

    /// The atomic local ownership change: if the item exists and is owned
    /// by `from`, it is reassigned to `to` with its approvals cleared, both
    /// sides of the registry are updated in the same step, and the
    /// pre-mutation snapshot of the item is returned for the refund and
    /// compensation logic. Fails with `NotFound` for an unknown id and with
    /// `NotOwner` when `from` is not the current owner, leaving the
    /// registry untouched.
    pub fn transfer_ownership(&mut self, token_id: &TokenId, from: &AccountId, to: &AccountId) -> (r:
        Result<Token, TransferError>)
        requires
            old(self).wf(),
        ensures
            final(self).wf(),
            (r matches Ok(prev) ==> prev.wf() && prev@ == old(self)@.tokens[token_id@] && final(self)@ == apply_move(old(self)@, token_id@, to@, Map::empty())),
            ((r matches Ok(_)) <==> (old(self)@.tokens.contains_key(token_id@) && old(self)@.tokens[token_id@].owner_id == from@)),
            (r == Err::<Token, TransferError>(TransferError::NotFound) <==> !old(self)@.tokens.contains_key(token_id@)),
            (r == Err::<Token, TransferError>(TransferError::NotOwner) <==> (old(self)@.tokens.contains_key(token_id@) && old(self)@.tokens[token_id@].owner_id != from@)),
            (r matches Err(_) ==> final(self)@ == old(self)@),
            final(self).admin() == old(self).admin(),
    {
        let snapshot = match self.tokens_by_id.get(token_id.as_str()) {
            None => None,
            Some(token) => Some(
                Token {
                    owner_id: token.owner_id.clone(),
                    approved_account_ids: token.approved_account_ids.duplicate(),
                },
            ),
        };
        let prev = match snapshot {
            None => {
                return Err(TransferError::NotFound);
            },
            Some(prev) => prev,
        };
        if !(prev.owner_id == *from) {
            return Err(TransferError::NotOwner);
        }
        let ghost s0 = self@;
        self.internal_remove_token_from_owner(from, token_id);
        self.internal_add_token_to_owner(to, token_id);
        let new_token = Token { owner_id: to.clone(), approved_account_ids: ApprovalMap::new() };
        self.tokens_by_id.insert(token_id.clone(), new_token);
        proof {
            lemma_move_preserves_coherent(s0, token_id@, to@, Map::empty());
            assert(self@.tokens =~= apply_move(s0, token_id@, to@, Map::empty()).tokens);
            assert(self@.index == apply_move(s0, token_id@, to@, Map::empty()).index);
            assert(self@ =~= apply_move(s0, token_id@, to@, Map::empty()));
            assert forall|id: Seq<char>| #[trigger]
                self.tokens_by_id@.contains_key(id) implies self.tokens_by_id@[id].wf() by {
                if id != token_id@ {
                    assert(old(self).tokens_by_id@.contains_key(id));
                }
            }
        }
        Ok(prev)
    }

    /// Validates the caller's authorization and performs the atomic
    /// ownership change towards `receiver_id`, returning the pre-mutation
    /// snapshot. Fails with `NotFound` for an unknown id and with
    /// `Unauthorized` when `sender_id` is neither the owner nor an operator
    /// presenting its current approval sequence number; either failure
    /// leaves the registry untouched.
    pub fn internal_transfer(
        &mut self,
        sender_id: &AccountId,
        receiver_id: &AccountId,
        token_id: &TokenId,
        approval_id: u64,
    ) -> (r: Result<Token, TransferError>)
        requires
            old(self).wf(),
        ensures
            final(self).wf(),
            (r matches Ok(prev) ==> prev.wf() && prev@ == old(self)@.tokens[token_id@] && final(self)@ == apply_move(old(self)@, token_id@, receiver_id@, Map::empty())),
            ((r matches Ok(_)) <==> (old(self)@.tokens.contains_key(token_id@) && authorized(
                old(self)@.tokens[token_id@],
                sender_id@,
                approval_id,
            ))),
            (r == Err::<Token, TransferError>(TransferError::NotFound) <==> !old(self)@.tokens.contains_key(token_id@)),
            (r == Err::<Token, TransferError>(TransferError::Unauthorized) <==> (old(self)@.tokens.contains_key(token_id@) && !authorized(
                old(self)@.tokens[token_id@],
                sender_id@,
                approval_id,
            ))),
            (r matches Err(_) ==> final(self)@ == old(self)@),
            final(self).admin() == old(self).admin(),
    {
        let check = match self.tokens_by_id.get(token_id.as_str()) {
            None => None,
            Some(token) => Some(
                (token.check_approval(sender_id, approval_id), token.owner_id.clone()),
            ),
        };
        let (ok, owner) = match check {
            None => {
                return Err(TransferError::NotFound);
            },
            Some(p) => p,
        };
        if !ok {
            return Err(TransferError::Unauthorized);
        }
        let r = self.transfer_ownership(token_id, &owner, receiver_id);
        proof {
            assert(r matches Ok(_));
        }
        r
    }

    /// Enters a fresh item into the registry under `owner_id`, carrying
    /// `approved_account_ids`, and reports whether it was fresh; an id that
    /// is already registered is rejected and nothing changes.
    pub fn register_token(
        &mut self,
        token_id: TokenId,
        owner_id: AccountId,
        approved_account_ids: ApprovalMap,
    ) -> (r: bool)
        requires
            old(self).wf(),
            approved_account_ids.wf(),
        ensures
            final(self).wf(),
            r == !old(self)@.tokens.contains_key(token_id@),
            r ==> final(self)@ == apply_register(
                old(self)@,
                token_id@,
                owner_id@,
                approved_account_ids@,
            ),
            !r ==> final(self)@ == old(self)@,
            final(self).admin() == old(self).admin(),
    {
        if self.tokens_by_id.contains_key(token_id.as_str()) {
            return false;
        }
        let ghost s0 = self@;
        self.internal_add_token_to_owner(&owner_id, &token_id);
        let token = Token { owner_id, approved_account_ids };
        self.tokens_by_id.insert(token_id, token);
        proof {
            lemma_register_preserves_coherent(s0, token_id@, owner_id@, approved_account_ids@);
            assert(self@.tokens =~= apply_register(
                s0,
                token_id@,
                owner_id@,
                approved_account_ids@,
            ).tokens);
            assert(self@ =~= apply_register(s0, token_id@, owner_id@, approved_account_ids@));
            assert forall|id: Seq<char>| #[trigger]
                self.tokens_by_id@.contains_key(id) implies self.tokens_by_id@[id].wf() by {
                if id != token_id@ {
                    assert(old(self).tokens_by_id@.contains_key(id));
                }
            }
        }
        true
    }

    /// The item registered under `token_id`, if any: a snapshot of its
    /// owner and approvals.
    pub fn get(&self, token_id: &TokenId) -> (r: Option<Token>)
        requires
            self.wf(),
        ensures
            match r {
                Some(t) => self@.tokens.contains_key(token_id@) && t@ == self@.tokens[token_id@]
                    && t.wf(),
                None => !self@.tokens.contains_key(token_id@),
            },
    {
        match self.tokens_by_id.get(token_id.as_str()) {
            None => None,
            Some(token) => Some(
                Token {
                    owner_id: token.owner_id.clone(),
                    approved_account_ids: token.approved_account_ids.duplicate(),
                },
            ),
        }
    }

    /// The current owner of `token_id`, if the item exists.
    pub fn owner_of(&self, token_id: &TokenId) -> (r: Option<AccountId>)
        ensures
            match r {
                Some(o) => self@.tokens.contains_key(token_id@) && o@
                    == self@.tokens[token_id@].owner_id,
                None => !self@.tokens.contains_key(token_id@),
            },
    {
        match self.tokens_by_id.get(token_id.as_str()) {
            None => None,
            Some(token) => Some(token.owner_id.clone()),
        }
    }

    /// The approval sequence number `account_id` currently holds on
    /// `token_id`, if the item exists and the approval is granted.
    pub fn approval_of(&self, token_id: &TokenId, account_id: &AccountId) -> (r: Option<u64>)
        requires
            self.wf(),
        ensures
            match r {
                Some(seq) => self@.tokens.contains_key(token_id@)
                    && self@.tokens[token_id@].approved_account_ids.contains_key(account_id@)
                    && self@.tokens[token_id@].approved_account_ids[account_id@] == seq,
                None => !self@.tokens.contains_key(token_id@)
                    || !self@.tokens[token_id@].approved_account_ids.contains_key(account_id@),
            },
    {
        match self.tokens_by_id.get(token_id.as_str()) {
            None => None,
            Some(token) => token.approved_account_ids.get(account_id),
        }
    }

    /// Whether the owner index lists `token_id` under `account_id`.
    pub fn owner_index_contains(&self, account_id: &AccountId, token_id: &TokenId) -> (b: bool)
        ensures
            b == (self@.index.contains_key(account_id@) && self@.index[account_id@].contains(
                token_id@,
            )),
    {
        let ids = match self.tokens_per_owner.get(account_id.as_str()) {
            None => {
                return false;
            },
            Some(ids) => ids,
        };
        let n = ids.len();
        let mut i: usize = 0;
        while i < n
            invariant
                n == ids@.len(),
                i <= n,
                self.tokens_per_owner@.contains_key(account_id@),
                ids@ == self.tokens_per_owner@[account_id@]@,
                forall|j: int| 0 <= j < i ==> ids@[j]@ != token_id@,
            decreases n - i,
        {
            if ids[i] == *token_id {
                proof {
                    let s = self.tokens_per_owner@[account_id@]@;
                    assert(ids@ == s);
                    assert(s[i as int]@ == token_id@);
                    assert(ids_set(s).contains(token_id@));
                    assert(self@.index[account_id@] == ids_set(s));
                }
                return true;
            }
            i += 1;
        }
        proof {
            if self@.index[account_id@].contains(token_id@) {
                let j = choose|j: int| 0 <= j < ids@.len() && ids@[j]@ == token_id@;
                assert(ids@[j]@ != token_id@);
            }
        }
        false
    }

    /// The compensating transfer of the resolution step: the item, still
    /// held by `receiver_id`, is moved back to `previous_owner_id` under
    /// the same index-consistency rule as any other ownership change, and
    /// the approvals captured before the optimistic transfer are restored
    /// onto it. Returns the approvals the receiver had accumulated in the
    /// meantime, whose deposits are owed back to the receiver.
    pub fn compensate(
        &mut self,
        previous_owner_id: &AccountId,
        receiver_id: &AccountId,
        token_id: &TokenId,
        restored_approvals: ApprovalMap,
    ) -> (receiver_approvals: ApprovalMap)
        requires
            old(self).wf(),
            restored_approvals.wf(),
            rollback_needed(old(self)@, receiver_id@, token_id@),
        ensures
            final(self).wf(),
            final(self).admin() == old(self).admin(),
            receiver_approvals.wf(),
            receiver_approvals@ == old(self)@.tokens[token_id@].approved_account_ids,
            final(self)@ == apply_move(
                old(self)@,
                token_id@,
                previous_owner_id@,
                restored_approvals@,
            ),
    {
        let receiver_approvals = match self.tokens_by_id.get(token_id.as_str()) {
            Some(token) => token.approved_account_ids.duplicate(),
            None => {
                proof {
                    assert(false);
                }
                ApprovalMap::new()
            },
        };
        let ghost s0 = self@;
        let ghost restored = restored_approvals@;
        self.internal_remove_token_from_owner(receiver_id, token_id);
        self.internal_add_token_to_owner(previous_owner_id, token_id);
        let new_token = Token {
            owner_id: previous_owner_id.clone(),
            approved_account_ids: restored_approvals,
        };
        self.tokens_by_id.insert(token_id.clone(), new_token);
        proof {
            lemma_move_preserves_coherent(s0, token_id@, previous_owner_id@, restored);
            assert(self@.tokens =~= apply_move(s0, token_id@, previous_owner_id@, restored).tokens);
            assert(self@ =~= apply_move(s0, token_id@, previous_owner_id@, restored));
            assert forall|id: Seq<char>| #[trigger]
                self.tokens_by_id@.contains_key(id) implies self.tokens_by_id@[id].wf() by {
                if id != token_id@ {
                    assert(old(self).tokens_by_id@.contains_key(id));
                }
            }
        }
        receiver_approvals
    }
}

} // verus!
