use account_auth::{map_redeem_error, verification_status, StoreError, VerifyError};

#[test]
fn verification_statuses() {
    assert_eq!(verification_status(Ok(())), 200);
    assert_eq!(verification_status(Err(VerifyError::NotFound)), 404);
    assert_eq!(verification_status(Err(VerifyError::Internal)), 500);
}

#[test]
fn redeem_errors_map() {
    assert_eq!(map_redeem_error(StoreError::NotFound), VerifyError::NotFound);
    assert_eq!(map_redeem_error(StoreError::Unavailable), VerifyError::Internal);
    assert_eq!(VerifyError::NotFound.message(), "Token not found");
    assert_eq!(VerifyError::Internal.message(), "Error querying client");
}
