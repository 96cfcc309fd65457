//! Outcomes of a verification request.

use vstd::prelude::*;

verus! {

/// The answer to a request that verified.
#[derive(Debug, PartialEq, Eq)]
pub struct VerifyResponse {
    pub is_verified: bool,
}

/// Why a request was not verified.
#[derive(Debug, PartialEq, Eq)]
pub enum VerifyError {
    /// The proof verifier rejected the authenticator; carries its diagnostic.
    GenericError(String),
    /// An encoding, the signature scheme or the intent scope did not parse.
    ParsingError,
    /// The current epoch could not be obtained from the ledger.
    GetEpochError,
}

/// The client-facing message of an error.
pub open spec fn error_text(e: VerifyError) -> Seq<char> {
    match e {
        VerifyError::GenericError(d) => d@,
        VerifyError::ParsingError => "Parsing error"@,
        VerifyError::GetEpochError => "Cannot get epoch"@,
    }
}

impl VerifyError {
    /// The text sent back to the client for this error.
    pub fn message(&self) -> (r: String)
        ensures
            r@ == error_text(*self),
    {
        match self {
            VerifyError::GenericError(d) => d.clone(),
            VerifyError::ParsingError => String::from_str("Parsing error"),
            VerifyError::GetEpochError => String::from_str("Cannot get epoch"),
        }
    }
}

} // verus!
