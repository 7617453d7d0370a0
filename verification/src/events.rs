//! Versioned structured records describing committed ownership changes,
//! meant for external indexers. The registry only builds the record
//! values; formatting and emission are the host's business.

use vstd::prelude::*;

use crate::{AccountId, TokenId};

verus! {

/// One ownership change: who authorized it, between which accounts it
/// moved which items, and the free-form note that accompanied it.
pub struct NftTransferLog {
    /// The initiating operator, or `None` when the owner itself initiated.
    pub authorized_id: Option<AccountId>,
    pub old_owner_id: AccountId,
    pub new_owner_id: AccountId,
    pub token_ids: Vec<TokenId>,
    pub memo: Option<String>,
}

/// The kinds of record the registry emits.
pub enum EventLogVariant {
    NftTransfer(Vec<NftTransferLog>),
}

/// A structured record under a named standard and version.
pub struct EventLog {
    pub standard: String,
    pub version: String,
    pub event: EventLogVariant,
}

impl EventLog {
    /// The record describing one committed ownership change of one item.
    pub fn nft_transfer_event(
        authorized_id: Option<AccountId>,
        old_owner_id: AccountId,
        new_owner_id: AccountId,
        token_id: TokenId,
        memo: Option<String>,
    ) -> (e: EventLog)
        ensures
            e.standard@ == "nep171"@,
            e.version@ == "1.0.0"@,
            (e.event matches EventLogVariant::NftTransfer(logs) && logs@.len() == 1
                && logs@[0].authorized_id == authorized_id && logs@[0].old_owner_id == old_owner_id
                && logs@[0].new_owner_id == new_owner_id && logs@[0].token_ids@.len() == 1
                && logs@[0].token_ids@[0] == token_id && logs@[0].memo == memo),
    {
        EventLog {
            standard: "nep171".to_owned(),
            version: "1.0.0".to_owned(),
            event: EventLogVariant::NftTransfer(
                vec![
                    NftTransferLog {
                        authorized_id,
                        old_owner_id,
                        new_owner_id,
                        token_ids: vec![token_id],
                        memo,
                    },
                ],
            ),
        }
    }
}

} // verus!
