//! Choosing the epoch a proof is checked against.

use vstd::prelude::*;
use crate::error::VerifyError;

verus! {

/// How the epoch of a request is obtained.
#[derive(Debug, Clone, Copy, PartialEq, Eq, Structural)]
pub enum EpochPlan {
    /// The caller supplied it: use it as it is, with no query.
    Given(u64),
    /// Ask the ledger of the selected network for its current epoch.
    Query,
}

pub open spec fn epoch_plan(curr_epoch: Option<u64>) -> EpochPlan {
    match curr_epoch {
        Some(e) => EpochPlan::Given(e),
        None => EpochPlan::Query,
    }
}

/// The epoch a request is checked against: the one it supplies, else the
/// one the ledger answered, else an error when the ledger gave none.
pub open spec fn epoch_outcome(curr_epoch: Option<u64>, queried: Option<u64>) -> Result<u64, VerifyError> {
    match curr_epoch {
        Some(e) => Ok(e),
        None => match queried {
            Some(q) => Ok(q),
            None => Err(VerifyError::GetEpochError),
        },
    }
}

/// Decides whether the ledger must be queried for the epoch.
pub fn plan_epoch(curr_epoch: Option<u64>) -> (r: EpochPlan)
    ensures
        r == epoch_plan(curr_epoch),
{
    match curr_epoch {
        Some(e) => EpochPlan::Given(e),
        None => EpochPlan::Query,
    }
}

/// The epoch to use, given what the ledger answered (`None` when building
/// the client or running the query failed, or when no query was made).
pub fn resolve_epoch(curr_epoch: Option<u64>, queried: Option<u64>) -> (r: Result<u64, VerifyError>)
    ensures
        r == epoch_outcome(curr_epoch, queried),
{
    match curr_epoch {
        Some(e) => Ok(e),
        None => match queried {
            Some(q) => Ok(q),
            None => Err(VerifyError::GetEpochError),
        },
    }
}

/// An epoch supplied by the caller is used unchanged and never calls for a
/// query: whatever the ledger would have answered, the outcome is the same.
pub proof fn lemma_explicit_epoch_bypass(e: u64, q1: Option<u64>, q2: Option<u64>)
    ensures
        epoch_plan(Some(e)) != EpochPlan::Query,
        epoch_outcome(Some(e), q1) == Ok::<u64, VerifyError>(e),
        epoch_outcome(Some(e), q1) == epoch_outcome(Some(e), q2),
{
}

} // verus!
