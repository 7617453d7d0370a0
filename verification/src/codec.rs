//! Decoding of the notification response. The receiving party answers
//! with an arbitrary byte payload; the protocol only cares whether it is
//! exactly a JSON boolean, and which one.

use vstd::prelude::*;

verus! {

/// The boolean that a byte payload decodes to as JSON, if it decodes to
/// one at all: a function of the bytes alone.
pub uninterp spec fn json_bool_of(bytes: Seq<u8>) -> Option<bool>;

/// Relies on `serde_json::from_slice::<bool>`: whether a byte slice
/// parses as a JSON boolean, and which one, depends on the bytes alone,
/// and the call never panics.
#[verifier::external_body]
pub(crate) fn decode_bool(bytes: &Vec<u8>) -> (r: Option<bool>)
    ensures
        r == json_bool_of(bytes@),
{
    match serde_json::from_slice::<bool>(bytes) {
        Ok(b) => Some(b),
        Err(_) => None,
    }
}

} // verus!
