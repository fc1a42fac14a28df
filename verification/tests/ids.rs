use user_accounts::auth::AuthError;
use user_accounts::ids::{account_id, checked, fresh_ids, ID_LENGTH};

const ID: &str = "7f1c1a3e-4a4e-4d0a-9b39-0a1b2c3d4e5f";

#[test]
fn id_length_is_thirty_six() {
    assert_eq!(ID_LENGTH, 36);
    assert_eq!(ID.len(), ID_LENGTH);
}

#[test]
fn account_id_reads_the_usual_text() {
    assert_eq!(account_id(ID), Ok(ID.to_string()));
}

#[test]
fn account_id_is_written_in_lower_case() {
    assert_eq!(account_id("7F1C1A3E-4A4E-4D0A-9B39-0A1B2C3D4E5F"), Ok(ID.to_string()));
}

#[test]
fn account_id_reads_the_other_forms() {
    assert_eq!(account_id("7f1c1a3e4a4e4d0a9b390a1b2c3d4e5f"), Ok(ID.to_string()));
    assert_eq!(account_id("{7f1c1a3e-4a4e-4d0a-9b39-0a1b2c3d4e5f}"), Ok(ID.to_string()));
    assert_eq!(account_id("urn:uuid:7f1c1a3e-4a4e-4d0a-9b39-0a1b2c3d4e5f"), Ok(ID.to_string()));
}

#[test]
fn account_id_reads_the_nil_id() {
    let nil = "00000000-0000-0000-0000-000000000000";
    assert_eq!(account_id(nil), Ok(nil.to_string()));
}

#[test]
fn account_id_rejects_what_is_no_id() {
    assert_eq!(account_id(""), Err(AuthError::ValidationError));
    assert_eq!(account_id("u1"), Err(AuthError::ValidationError));
    assert_eq!(account_id("7f1c1a3e-4a4e-4d0a-9b39-0a1b2c3d4e5"), Err(AuthError::ValidationError));
    assert_eq!(account_id("7f1c1a3e-4a4e-4d0a-9b39-0a1b2c3d4e5g"), Err(AuthError::ValidationError));
    assert_eq!(account_id("7f1c1a3e_4a4e_4d0a_9b39_0a1b2c3d4e5f"), Err(AuthError::ValidationError));
    assert_eq!(account_id(" 7f1c1a3e-4a4e-4d0a-9b39-0a1b2c3d4e5f"), Err(AuthError::ValidationError));
}

#[test]
fn account_id_failure_is_a_bad_request() {
    assert_eq!(account_id("1 OR 1=1").unwrap_err().reply().code, 400);
}

#[test]
fn checked_passes_an_id_on() {
    assert_eq!(checked(Some(ID.to_string())), Ok(ID.to_string()));
    assert_eq!(checked(Some(String::new())), Ok(String::new()));
}

#[test]
fn checked_without_an_id_is_invalid() {
    assert_eq!(checked(None), Err(AuthError::ValidationError));
}

#[test]
fn fresh_ids_draws_as_many_as_asked() {
    assert!(fresh_ids(0).is_empty());
    let ids = fresh_ids(5);
    assert_eq!(ids.len(), 5);
    assert!(ids.iter().all(|id| id.len() == ID_LENGTH));
    assert!(ids.iter().all(|id| account_id(id) == Ok(id.clone())));
}

#[test]
fn fresh_ids_are_all_different() {
    let mut ids = fresh_ids(1000);
    ids.sort();
    ids.dedup();
    assert_eq!(ids.len(), 1000);
}
