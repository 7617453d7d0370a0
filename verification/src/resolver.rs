//! The resolution step: the second half of a notify transfer, scheduled
//! by the host strictly after the notification settles. It decides, from
//! the notification's outcome and the registry's current truth, whether
//! the optimistic change stands or is compensated, and returns the side
//! effects the host must perform.

use vstd::prelude::*;

use crate::approvals::ApprovalMap;
use crate::codec::{decode_bool, json_bool_of};
use crate::events::{EventLog, EventLogVariant};
use crate::nft_core::Refund;
use crate::registry::Contract;
use crate::state::{apply_move, rollback_needed};
use crate::{AccountId, TokenId};

verus! {

/// How the notification step concluded, as the host hands it in: either
/// the receiver's hook completed and returned a byte payload, or the
/// notification failed outright (rejected, out of budget, never ran).
pub enum PromiseOutcome {
    Successful(Vec<u8>),
    Failed,
}

/// The boolean the notification outcome decodes to, if any.
pub open spec fn outcome_decoded(outcome: PromiseOutcome) -> Option<bool> {
    match outcome {
        PromiseOutcome::Successful(bytes) => json_bool_of(bytes@),
        PromiseOutcome::Failed => None,
    }
}

/// What the resolution step decided, together with the side effects the
/// host must perform. The overall boolean answer of the notify transfer
/// is [`ResolveAction::transfer_succeeded`].
pub enum ResolveAction {
    /// The response decoded to a boolean: the decoded value is taken as
    /// final, no compensation is performed whatever it says, and the
    /// transfer is reported successful exactly when the receiver did not
    /// ask for the item back.
    Settled { transfer_ok: bool },
    /// The notification failed, but the item is gone or has moved on: no
    /// compensation, and the captured approvals' deposits are owed back
    /// to the previous owner.
    KeptCurrent { refund: Refund },
    /// The notification failed and the receiver still held the item: the
    /// compensating transfer ran, the receiver's approvals' deposits are
    /// owed back to the receiver, and a record of the reverse change is
    /// to be emitted.
    RolledBack { refund: Refund, event: EventLog },
}

impl ResolveAction {
    /// Whether the notify transfer is reported successful to its caller.
    pub open spec fn spec_succeeded(&self) -> bool {
        match self {
            ResolveAction::Settled { transfer_ok } => *transfer_ok,
            ResolveAction::KeptCurrent { .. } => true,
            ResolveAction::RolledBack { .. } => false,
        }
    }

    /// The boolean answer the notify transfer's caller finally observes.
    pub fn transfer_succeeded(&self) -> (b: bool)
        ensures
            b == self.spec_succeeded(),
    {
        match self {
            ResolveAction::Settled { transfer_ok } => *transfer_ok,
            ResolveAction::KeptCurrent { .. } => true,
            ResolveAction::RolledBack { .. } => false,
        }
    }
}

impl Contract {
    /// The resolution decision, taken on the already-decoded notification
    /// response. `None` stands for a failed notification or a payload
    /// that is not a JSON boolean; both take the conservative branch that
    /// re-validates current ownership.
    pub fn nft_resolve_transfer_decoded(
        &mut self,
        authorized_id: Option<AccountId>,
        owner_id: AccountId,
        receiver_id: AccountId,
        token_id: TokenId,
        approved_account_ids: ApprovalMap,
        memo: Option<String>,
        decoded: Option<bool>,
    ) -> (r: ResolveAction)
        requires
            old(self).wf(),
            approved_account_ids.wf(),
        ensures
            final(self).wf(),
            final(self).admin() == old(self).admin(),
            (decoded matches Some(b) ==> final(self)@ == old(self)@ && r
                == ResolveAction::Settled { transfer_ok: !b }),
            (decoded is None && !rollback_needed(old(self)@, receiver_id@, token_id@) ==> final(self)@ == old(self)@ && (r matches ResolveAction::KeptCurrent { refund }
                && refund.beneficiary@ == owner_id@ && refund.approved_account_ids
                == approved_account_ids)),
            (decoded is None && rollback_needed(old(self)@, receiver_id@, token_id@) ==> final(self)@ == apply_move(old(self)@, token_id@, owner_id@, approved_account_ids@) && (r matches
                ResolveAction::RolledBack { refund, event }
                && refund.beneficiary@ == receiver_id@ && refund.approved_account_ids.wf()
                && refund.approved_account_ids@ == old(self)@.tokens[token_id@].approved_account_ids && event.standard@ == "nep171"@
                && event.version@ == "1.0.0"@ && (event.event matches EventLogVariant::NftTransfer(
                logs,
            ) && logs@.len() == 1 && logs@[0].authorized_id == authorized_id
                && logs@[0].old_owner_id@ == receiver_id@ && logs@[0].new_owner_id@ == owner_id@
                && logs@[0].token_ids@.len() == 1 && logs@[0].token_ids@[0]@ == token_id@
                && logs@[0].memo == memo))),
    {
        if let Some(b) = decoded {
            return ResolveAction::Settled { transfer_ok: !b };
        }
        let still_with_receiver = match self.owner_of(&token_id) {
            None => false,
            Some(current_owner) => current_owner == receiver_id,
        };
        if !still_with_receiver {
            return ResolveAction::KeptCurrent {
                refund: Refund { beneficiary: owner_id, approved_account_ids },
            };
        }
        let receiver_approvals = self.compensate(
            &owner_id,
            &receiver_id,
            &token_id,
            approved_account_ids,
        );
        let event = EventLog::nft_transfer_event(
            authorized_id,
            receiver_id.clone(),
            owner_id,
            token_id,
            memo,
        );
        ResolveAction::RolledBack {
            refund: Refund { beneficiary: receiver_id, approved_account_ids: receiver_approvals },
            event,
        }
    }

    /// The resolution step as the host invokes it, on the raw outcome of
    /// the notification. A payload that decodes to a boolean is final:
    /// only the reported answer depends on it, and no compensation is
    /// performed whatever it says. Any other outcome makes the resolver
    /// re-fetch the item and compensate exactly when the receiver still
    /// holds it.
    pub fn nft_resolve_transfer(
        &mut self,
        authorized_id: Option<AccountId>,
        owner_id: AccountId,
        receiver_id: AccountId,
        token_id: TokenId,
        approved_account_ids: ApprovalMap,
        memo: Option<String>,
        outcome: PromiseOutcome,
    ) -> (r: ResolveAction)
        requires
            old(self).wf(),
            approved_account_ids.wf(),
        ensures
            final(self).wf(),
            final(self).admin() == old(self).admin(),
            (outcome_decoded(outcome) matches Some(b) ==> final(self)@ == old(self)@ && r
                == ResolveAction::Settled { transfer_ok: !b }),
            (outcome_decoded(outcome) is None && !rollback_needed(
                old(self)@,
                receiver_id@,
                token_id@,
            ) ==> final(self)@ == old(self)@ && (r matches ResolveAction::KeptCurrent { refund }
                && refund.beneficiary@ == owner_id@ && refund.approved_account_ids
                == approved_account_ids)),
            (outcome_decoded(outcome) is None && rollback_needed(
                old(self)@,
                receiver_id@,
                token_id@,
            ) ==> final(self)@ == apply_move(old(self)@, token_id@, owner_id@, approved_account_ids@)
                && (r matches ResolveAction::RolledBack { refund, event }
                && refund.beneficiary@ == receiver_id@ && refund.approved_account_ids.wf()
                && refund.approved_account_ids@ == old(self)@.tokens[token_id@].approved_account_ids && event.standard@ == "nep171"@
                && event.version@ == "1.0.0"@ && (event.event matches EventLogVariant::NftTransfer(
                logs,
            ) && logs@.len() == 1 && logs@[0].authorized_id == authorized_id
                && logs@[0].old_owner_id@ == receiver_id@ && logs@[0].new_owner_id@ == owner_id@
                && logs@[0].token_ids@.len() == 1 && logs@[0].token_ids@[0]@ == token_id@
                && logs@[0].memo == memo))),
    {
        let decoded = match &outcome {
            PromiseOutcome::Successful(bytes) => decode_bool(bytes),
            PromiseOutcome::Failed => None,
        };
        self.nft_resolve_transfer_decoded(
            authorized_id,
            owner_id,
            receiver_id,
            token_id,
            approved_account_ids,
            memo,
            decoded,
        )
    }
}

} // verus!
