//! An on-ledger registry of uniquely owned items with a two-step
//! transfer-and-notify protocol: an ownership change is applied
//! optimistically, the receiving party is notified asynchronously, and a
//! separate resolution step later decides whether the change stands or is
//! compensated.

use vstd::prelude::*;

pub mod approvals;
pub mod codec;
pub mod errors;
pub mod events;
pub mod laws;
pub mod nft_core;
pub mod registry;
pub mod resolver;
pub mod state;

verus! {

/// Stable identifier of a registered item.
pub type TokenId = String;

/// Identifier of an account that can own items or hold approvals.
pub type AccountId = String;

/// Amounts of the attached payment, in the smallest ledger unit.
pub type Balance = u128;

} // verus!
