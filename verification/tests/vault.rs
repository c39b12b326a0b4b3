// These run against keyring's mock credential store, which is the default
// store when no platform store feature is enabled.

use autosort::AuthError;
use autosort::CredentialStore;
use autosort::Slot;
use autosort::VaultDeleteOutcome;
use autosort::VaultGetOutcome;
use autosort::VaultWriteOutcome;
use autosort::interpret_delete_outcome;
use autosort::interpret_get_outcome;
use autosort::interpret_write_outcome;
use autosort::service_name;

#[test]
fn store_then_get_returns_the_value() {
    let vault = CredentialStore::new(service_name()).unwrap();
    for slot in [Slot::AccessToken, Slot::RefreshToken] {
        vault.store(slot, "secret-value").unwrap();
        assert_eq!(vault.get(slot), Ok(Some("secret-value".to_string())));
    }
}

#[test]
fn slots_are_independent() {
    let vault = CredentialStore::new(service_name()).unwrap();
    vault.store(Slot::AccessToken, "a").unwrap();
    vault.store(Slot::RefreshToken, "r").unwrap();
    assert_eq!(vault.get(Slot::AccessToken), Ok(Some("a".to_string())));
    assert_eq!(vault.get(Slot::RefreshToken), Ok(Some("r".to_string())));
}

#[test]
fn get_before_any_store_is_none_not_an_error() {
    let vault = CredentialStore::new(service_name()).unwrap();
    assert_eq!(vault.get(Slot::AccessToken), Ok(None));
    assert_eq!(vault.get(Slot::RefreshToken), Ok(None));
}

#[test]
fn delete_on_empty_slot_succeeds() {
    let vault = CredentialStore::new(service_name()).unwrap();
    assert_eq!(vault.delete(Slot::AccessToken), Ok(()));
    assert_eq!(vault.delete(Slot::RefreshToken), Ok(()));
}

#[test]
fn second_store_overwrites_the_first() {
    let vault = CredentialStore::new(service_name()).unwrap();
    vault.store(Slot::AccessToken, "first").unwrap();
    vault.store(Slot::AccessToken, "second").unwrap();
    assert_eq!(vault.get(Slot::AccessToken), Ok(Some("second".to_string())));
}

#[test]
fn delete_removes_the_stored_value() {
    let vault = CredentialStore::new(service_name()).unwrap();
    vault.store(Slot::RefreshToken, "gone soon").unwrap();
    assert_eq!(vault.delete(Slot::RefreshToken), Ok(()));
    assert_eq!(vault.get(Slot::RefreshToken), Ok(None));
    assert_eq!(vault.delete(Slot::RefreshToken), Ok(()));
}

#[test]
fn slot_names_are_the_vault_side_names() {
    assert_eq!(Slot::AccessToken.name(), "access_token");
    assert_eq!(Slot::RefreshToken.name(), "refresh_token");
}

#[test]
fn a_present_secret_reads_as_some() {
    let outcome = VaultGetOutcome::Present("tok".to_string());
    assert_eq!(interpret_get_outcome(outcome), Ok(Some("tok".to_string())));
}

#[test]
fn an_absent_secret_reads_as_none_not_an_error() {
    assert_eq!(interpret_get_outcome(VaultGetOutcome::Absent), Ok(None));
}

#[test]
fn a_vault_failure_reads_as_vault_error() {
    let outcome = VaultGetOutcome::Failure("vault locked".to_string());
    assert_eq!(
        interpret_get_outcome(outcome),
        Err(AuthError::VaultError("vault locked".to_string()))
    );
    let outcome = VaultWriteOutcome::Failure("no access".to_string());
    assert_eq!(
        interpret_write_outcome(outcome),
        Err(AuthError::VaultError("no access".to_string()))
    );
    let outcome = VaultDeleteOutcome::Failure("no access".to_string());
    assert_eq!(
        interpret_delete_outcome(outcome),
        Err(AuthError::VaultError("no access".to_string()))
    );
}

#[test]
fn removal_answers_both_read_as_success() {
    assert_eq!(interpret_delete_outcome(VaultDeleteOutcome::Removed), Ok(()));
    assert_eq!(
        interpret_delete_outcome(VaultDeleteOutcome::WasAbsent),
        Ok(())
    );
}

#[test]
fn a_completed_write_reads_as_success() {
    assert_eq!(interpret_write_outcome(VaultWriteOutcome::Done), Ok(()));
}
