//! The caller-facing transfer operations: the direct transfer, and the
//! first, optimistic step of the transfer-and-notify protocol. Both demand
//! an exact minimal attached payment, validate the caller's authorization,
//! and perform the atomic local ownership change; the notify-style
//! transfer additionally hands back the captured protocol state that the
//! asynchronous resolution step needs.

use vstd::prelude::*;

use crate::approvals::ApprovalMap;
use crate::errors::TransferError;
use crate::registry::Contract;
use crate::state::{apply_move, authorized, RegistryView};
use crate::{AccountId, Balance, TokenId};

verus! {

/// The exact payment a transfer call must attach, in the smallest ledger
/// unit: an anti-griefing signal, not a fee.
pub const REQUIRED_DEPOSIT: u128 = 1;

/// A refund owed after approvals were invalidated: every operator in
/// `approved_account_ids` had posted a deposit to hold its approval, and
/// the deposits are returned to `beneficiary` (the account that paid for
/// the approvals' storage). Issuing the payment is the host's business;
/// the registry only decides who is owed what.
pub struct Refund {
    pub beneficiary: AccountId,
    pub approved_account_ids: ApprovalMap,
}

/// The protocol state captured at the optimistic step of a notify
/// transfer and carried, unchanged, to the resolution step. It is not
/// persisted in the registry: the resolver re-derives current truth from
/// the registry and uses this tuple only to know what to roll back to.
pub struct PendingTransfer {
    /// The account that initiated the transfer.
    pub sender_id: AccountId,
    /// The initiating operator, or `None` when the owner itself initiated.
    pub authorized_id: Option<AccountId>,
    /// The owner before the optimistic change; the rollback target.
    pub previous_owner_id: AccountId,
    /// The account the item was optimistically moved to.
    pub receiver_id: AccountId,
    /// The item being transferred.
    pub token_id: TokenId,
    /// The item's approvals before the optimistic change, to be restored
    /// on rollback.
    pub approved_account_ids: ApprovalMap,
    /// Free-form note carried through to the emitted record.
    pub memo: Option<String>,
    /// The payload delivered to the receiving party's notification hook.
    pub msg: String,
}

/// The core transfer surface of the registry. The two spec members let
/// the contracts speak of the implementing registry's invariant and its
/// administering account.
pub trait NonFungibleTokenCore: View<V = RegistryView> + Sized {
    /// The validity invariant the operations preserve.
    spec fn reg_wf(&self) -> bool;

    /// The account that administers the registry.
    spec fn reg_admin(&self) -> Seq<char>;

    /// A direct transfer: moves `token_id` to `receiver_id` on behalf of
    /// `sender_id`, who must attach exactly [`REQUIRED_DEPOSIT`] and be
    /// authorized (owner, or operator presenting its current approval
    /// sequence number). On success the item's approvals are cleared and
    /// their deposits are owed back to the caller; on any failure nothing
    /// changes.
    fn nft_transfer(
        &mut self,
        sender_id: AccountId,
        receiver_id: AccountId,
        token_id: TokenId,
        approval_id: u64,
        memo: Option<String>,
        deposit: Balance,
    ) -> (r: Result<Refund, TransferError>)
        requires
            old(self).reg_wf(),
        ensures
            final(self).reg_wf(),
            final(self).reg_admin() == old(self).reg_admin(),
            (r == Err::<Refund, TransferError>(TransferError::BadPayment) <==> deposit
                != REQUIRED_DEPOSIT),
            (r == Err::<Refund, TransferError>(TransferError::NotFound) <==> (deposit
                == REQUIRED_DEPOSIT && !old(self)@.tokens.contains_key(token_id@))),
            (r == Err::<Refund, TransferError>(TransferError::Unauthorized) <==> (deposit
                == REQUIRED_DEPOSIT && old(self)@.tokens.contains_key(token_id@) && !authorized(
                old(self)@.tokens[token_id@],
                sender_id@,
                approval_id,
            ))),
            ((r matches Ok(_)) <==> (deposit == REQUIRED_DEPOSIT && old(
                self,
            )@.tokens.contains_key(token_id@) && authorized(
                old(self)@.tokens[token_id@],
                sender_id@,
                approval_id,
            ))),
            (r matches Ok(refund) ==> refund.beneficiary@ == sender_id@
                && refund.approved_account_ids.wf() && refund.approved_account_ids@ == old(
                self,
            )@.tokens[token_id@].approved_account_ids && final(self)@ == apply_move(
                old(self)@,
                token_id@,
                receiver_id@,
                Map::empty(),
            ) && final(self)@.tokens[token_id@].approved_account_ids == Map::<
                Seq<char>,
                u64,
            >::empty()),
            (r matches Err(_) ==> final(self)@ == old(self)@);

    /// The optimistic step of a notify transfer: the same payment and
    /// authorization rules and the same atomic move as `nft_transfer`,
    /// but the invalidated approvals are not yet refunded. They travel in
    /// the returned [`PendingTransfer`], together with who initiated the
    /// change and what to notify the receiver with, so that the resolution
    /// step can later keep or reverse the change.
    fn nft_transfer_call(
        &mut self,
        sender_id: AccountId,
        receiver_id: AccountId,
        token_id: TokenId,
        approval_id: u64,
        memo: Option<String>,
        msg: String,
        deposit: Balance,
    ) -> (r: Result<PendingTransfer, TransferError>)
        requires
            old(self).reg_wf(),
        ensures
            final(self).reg_wf(),
            final(self).reg_admin() == old(self).reg_admin(),
            (r == Err::<PendingTransfer, TransferError>(TransferError::BadPayment) <==> deposit
                != REQUIRED_DEPOSIT),
            (r == Err::<PendingTransfer, TransferError>(TransferError::NotFound) <==> (deposit
                == REQUIRED_DEPOSIT && !old(self)@.tokens.contains_key(token_id@))),
            (r == Err::<PendingTransfer, TransferError>(TransferError::Unauthorized) <==> (deposit
                == REQUIRED_DEPOSIT && old(self)@.tokens.contains_key(token_id@) && !authorized(
                old(self)@.tokens[token_id@],
                sender_id@,
                approval_id,
            ))),
            ((r matches Ok(_)) <==> (deposit == REQUIRED_DEPOSIT && old(
                self,
            )@.tokens.contains_key(token_id@) && authorized(
                old(self)@.tokens[token_id@],
                sender_id@,
                approval_id,
            ))),
            (r matches Ok(pending) ==> {
                let prev = old(self)@.tokens[token_id@];
                &&& pending.sender_id@ == sender_id@
                &&& (sender_id@ == prev.owner_id ==> pending.authorized_id is None)
                &&& (sender_id@ != prev.owner_id ==> (pending.authorized_id matches Some(a) && a@
                    == sender_id@))
                &&& pending.previous_owner_id@ == prev.owner_id
                &&& pending.receiver_id == receiver_id
                &&& pending.token_id == token_id
                &&& pending.approved_account_ids.wf()
                &&& pending.approved_account_ids@ == prev.approved_account_ids
                &&& pending.memo == memo
                &&& pending.msg == msg
                &&& final(self)@ == apply_move(old(self)@, token_id@, receiver_id@, Map::empty())
                &&& final(self)@.tokens[token_id@].approved_account_ids == Map::<
                    Seq<char>,
                    u64,
                >::empty()
            }),
            (r matches Err(_) ==> final(self)@ == old(self)@);
}

impl NonFungibleTokenCore for Contract {
    open spec fn reg_wf(&self) -> bool {
        Contract::wf(self)
    }

    open spec fn reg_admin(&self) -> Seq<char> {
        Contract::admin(self)
    }

    fn nft_transfer(
        &mut self,
        sender_id: AccountId,
        receiver_id: AccountId,
        token_id: TokenId,
        approval_id: u64,
        memo: Option<String>,
        deposit: Balance,
    ) -> (r: Result<Refund, TransferError>) {
        if deposit != REQUIRED_DEPOSIT {
            return Err(TransferError::BadPayment);
        }
        let prev = match self.internal_transfer(&sender_id, &receiver_id, &token_id, approval_id) {
            Err(e) => {
                return Err(e);
            },
            Ok(prev) => prev,
        };
        Ok(Refund { beneficiary: sender_id, approved_account_ids: prev.approved_account_ids })
    }

    fn nft_transfer_call(
        &mut self,
        sender_id: AccountId,
        receiver_id: AccountId,
        token_id: TokenId,
        approval_id: u64,
        memo: Option<String>,
        msg: String,
        deposit: Balance,
    ) -> (r: Result<PendingTransfer, TransferError>) {
        if deposit != REQUIRED_DEPOSIT {
            return Err(TransferError::BadPayment);
        }
        let prev = match self.internal_transfer(&sender_id, &receiver_id, &token_id, approval_id) {
            Err(e) => {
                return Err(e);
            },
            Ok(prev) => prev,
        };
        let authorized_id = if sender_id == prev.owner_id {
            None
        } else {
            Some(sender_id.clone())
        };
        Ok(
            PendingTransfer {
                sender_id,
                authorized_id,
                previous_owner_id: prev.owner_id,
                receiver_id,
                token_id,
                approved_account_ids: prev.approved_account_ids,
                memo,
                msg,
            },
        )
    }
}

} // verus!
