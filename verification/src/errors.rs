//! The error taxonomy of the synchronous transfer path. Every error aborts
//! the call before any state change; the asynchronous resolution step never
//! surfaces an error, it folds a malformed notification response into its
//! own decision instead.

use vstd::prelude::*;

verus! {

/// Why a transfer call was rejected, with the registry left untouched.
#[derive(Clone, Copy, Debug, PartialEq, Eq, Structural)]
pub enum TransferError {
    /// No item is registered under the given id.
    NotFound,
    /// The item is not owned by the account the caller named as the source.
    NotOwner,
    /// The caller is neither the owner nor an operator holding an approval
    /// with the presented sequence number.
    Unauthorized,
    /// The attached payment is not the exact minimal amount.
    BadPayment,
}

} // verus!
