use zklogin_verifier::epoch::{plan_epoch, resolve_epoch, EpochPlan};
use zklogin_verifier::error::VerifyError;

#[test]
fn explicit_epoch_needs_no_query() {
    assert_eq!(plan_epoch(Some(7)), EpochPlan::Given(7));
    assert_eq!(resolve_epoch(Some(7), None), Ok(7));
    assert_eq!(resolve_epoch(Some(7), Some(9)), Ok(7));
}

#[test]
fn missing_epoch_is_queried() {
    assert_eq!(plan_epoch(None), EpochPlan::Query);
    assert_eq!(resolve_epoch(None, Some(9)), Ok(9));
}

#[test]
fn failed_query_is_epoch_error() {
    assert_eq!(resolve_epoch(None, None), Err(VerifyError::GetEpochError));
}
