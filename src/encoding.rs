//! Base64 decoding of request fields.

use vstd::prelude::*;
use fastcrypto::encoding::{Base64, Encoding};

verus! {

/// The bytes a text decodes to as standard padded Base64, or `None` when it
/// is not valid Base64.
pub uninterp spec fn base64_decoding(s: Seq<char>) -> Option<Seq<u8>>;

/// Relies on fastcrypto's `Base64::decode` (standard alphabet, padded, through
/// base64ct): either the bytes the text encodes or an error, depending on the
/// text alone.
#[verifier::external_body]
pub(crate) fn decode_base64(s: &String) -> (r: Option<Vec<u8>>)
    ensures
        match r {
            Some(v) => base64_decoding(s@) == Some(v@),
            None => base64_decoding(s@).is_none(),
        },
{
    Base64::decode(s).ok()
}

} // verus!
