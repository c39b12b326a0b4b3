//! The credential store adapter: two named secrets in the platform vault.
//!
//! The vault itself is the platform's; this adapter owns the two slots, and
//! the reading of what the vault answers: a missing secret is a valid state,
//! never an error, and only genuine vault failures surface as `VaultError`.

use vstd::prelude::*;

use crate::errors::AuthError;

verus! {

/// The platform vault's entry handle, opaque here.
#[verifier::external_type_specification]
#[verifier::external_body]
pub struct ExEntry(keyring::Entry);

/// The two named slots the application keeps in the vault.
#[derive(Clone, Copy, Debug, PartialEq, Eq, Structural)]
pub enum Slot {
    AccessToken,
    RefreshToken,
}

/// The vault-side name of a slot.
pub open spec fn slot_label(s: Slot) -> Seq<char> {
    match s {
        Slot::AccessToken => "access_token"@,
        Slot::RefreshToken => "refresh_token"@,
    }
}

impl Slot {
    /// The vault-side name of this slot.
    pub fn name(self) -> (r: &'static str)
        ensures
            r@ == slot_label(self),
    {
        match self {
            Slot::AccessToken => "access_token",
            Slot::RefreshToken => "refresh_token",
        }
    }
}

/// What the vault answered to a read.
#[derive(Debug, PartialEq, Eq)]
pub enum VaultGetOutcome {
    /// A secret is stored: its value.
    Present(String),
    /// No secret is stored for the slot.
    Absent,
    /// The vault itself failed: its message.
    Failure(String),
}

/// What the vault answered to a write.
#[derive(Debug, PartialEq, Eq)]
pub enum VaultWriteOutcome {
    /// The secret is stored.
    Done,
    /// The vault itself failed: its message.
    Failure(String),
}

/// What the vault answered to a removal.
#[derive(Debug, PartialEq, Eq)]
pub enum VaultDeleteOutcome {
    /// A secret was stored and is now removed.
    Removed,
    /// No secret was stored for the slot.
    WasAbsent,
    /// The vault itself failed: its message.
    Failure(String),
}

/// Relies on keyring::Entry::new: builds the handle for this service and
/// slot against the process's credential store; an error is the store's,
/// rendered to its message.
#[verifier::external_body]
fn entry_for(service: &str, slot_name: &str) -> (r: Result<keyring::Entry, String>) {
    match keyring::Entry::new(service, slot_name) {
        Ok(entry) => Ok(entry),
        Err(err) => Err(err.to_string()),
    }
}

/// Relies on keyring::Entry::get_password: `Ok` carries the stored secret,
/// `Err(NoEntry)` says none is stored, and any other error is a failure of
/// the vault, rendered to its message.
#[verifier::external_body]
fn entry_get_password(entry: &keyring::Entry) -> (r: VaultGetOutcome) {
    match entry.get_password() {
        Ok(value) => VaultGetOutcome::Present(value),
        Err(keyring::Error::NoEntry) => VaultGetOutcome::Absent,
        Err(err) => VaultGetOutcome::Failure(err.to_string()),
    }
}

/// Relies on keyring::Entry::set_password: `Ok` says the secret is stored,
/// overwriting any earlier one; any error is a failure of the vault,
/// rendered to its message.
#[verifier::external_body]
fn entry_set_password(entry: &keyring::Entry, value: &str) -> (r: VaultWriteOutcome) {
    match entry.set_password(value) {
        Ok(()) => VaultWriteOutcome::Done,
        Err(err) => VaultWriteOutcome::Failure(err.to_string()),
    }
}

/// Relies on keyring::Entry::delete_credential: `Ok` says a stored secret
/// was removed, `Err(NoEntry)` says none was stored, and any other error is
/// a failure of the vault, rendered to its message.
#[verifier::external_body]
fn entry_delete_credential(entry: &keyring::Entry) -> (r: VaultDeleteOutcome) {
    match entry.delete_credential() {
        Ok(()) => VaultDeleteOutcome::Removed,
        Err(keyring::Error::NoEntry) => VaultDeleteOutcome::WasAbsent,
        Err(err) => VaultDeleteOutcome::Failure(err.to_string()),
    }
}

/// How a read's answer reads as the caller's result: a stored secret is
/// `Some` of its value, an absent one is `None` — success, not an error —
/// and only a vault failure is an error, always a `VaultError`.
pub fn interpret_get_outcome(o: VaultGetOutcome) -> (r: Result<Option<String>, AuthError>)
    ensures
        o matches VaultGetOutcome::Present(v) ==> r == Result::<Option<String>, AuthError>::Ok(
            Some(v),
        ),
        o is Absent ==> r == Result::<Option<String>, AuthError>::Ok(None),
        o matches VaultGetOutcome::Failure(m) ==> r == Result::<Option<String>, AuthError>::Err(
            AuthError::VaultError(m),
        ),
{
    match o {
        VaultGetOutcome::Present(v) => Ok(Some(v)),
        VaultGetOutcome::Absent => Ok(None),
        VaultGetOutcome::Failure(m) => Err(AuthError::VaultError(m)),
    }
}

/// How a write's answer reads as the caller's result: stored is success,
/// and a vault failure is always a `VaultError`.
pub fn interpret_write_outcome(o: VaultWriteOutcome) -> (r: Result<(), AuthError>)
    ensures
        o is Done ==> r == Result::<(), AuthError>::Ok(()),
        o matches VaultWriteOutcome::Failure(m) ==> r == Result::<(), AuthError>::Err(
            AuthError::VaultError(m),
        ),
{
    match o {
        VaultWriteOutcome::Done => Ok(()),
        VaultWriteOutcome::Failure(m) => Err(AuthError::VaultError(m)),
    }
}

/// How a removal's answer reads as the caller's result: removed and absent
/// are both success — deleting what is not there is a no-op — and a vault
/// failure is always a `VaultError`.
pub fn interpret_delete_outcome(o: VaultDeleteOutcome) -> (r: Result<(), AuthError>)
    ensures
        o is Removed ==> r == Result::<(), AuthError>::Ok(()),
        o is WasAbsent ==> r == Result::<(), AuthError>::Ok(()),
        o matches VaultDeleteOutcome::Failure(m) ==> r == Result::<(), AuthError>::Err(
            AuthError::VaultError(m),
        ),
{
    match o {
        VaultDeleteOutcome::Removed => Ok(()),
        VaultDeleteOutcome::WasAbsent => Ok(()),
        VaultDeleteOutcome::Failure(m) => Err(AuthError::VaultError(m)),
    }
}

/// The application's service name in the vault.
pub fn service_name() -> (r: &'static str)
    ensures
        r@ == "autosort"@,
{
    "autosort"
}

/// The adapter over the two slots of one service. It holds one vault handle
/// per slot, built once at construction.
pub struct CredentialStore {
    access: keyring::Entry,
    refresh: keyring::Entry,
}

impl CredentialStore {
    /// Opens the two handles for the given service. Fails only with a
    /// `VaultError`.
    pub fn new(service: &str) -> (r: Result<CredentialStore, AuthError>)
        ensures
            r matches Err(e) ==> e is VaultError,
    {
        let access = match entry_for(service, Slot::AccessToken.name()) {
            Ok(entry) => entry,
            Err(m) => {
                return Err(AuthError::VaultError(m));
            },
        };
        let refresh = match entry_for(service, Slot::RefreshToken.name()) {
            Ok(entry) => entry,
            Err(m) => {
                return Err(AuthError::VaultError(m));
            },
        };
        Ok(CredentialStore { access, refresh })
    }

    /// The handle of one slot.
    fn entry(&self, slot: Slot) -> (r: &keyring::Entry)
        ensures
            slot is AccessToken ==> r == &self.access,
            slot is RefreshToken ==> r == &self.refresh,
    {
        match slot {
            Slot::AccessToken => &self.access,
            Slot::RefreshToken => &self.refresh,
        }
    }

    /// Stores a value in a slot, overwriting any earlier one. Every error
    /// is a `VaultError`.
    pub fn store(&self, slot: Slot, value: &str) -> (r: Result<(), AuthError>)
        ensures
            r matches Err(e) ==> e is VaultError,
    {
        interpret_write_outcome(entry_set_password(self.entry(slot), value))
    }

    /// Reads a slot: `Ok(None)` when nothing is stored — that is success,
    /// not an error. Every error is a `VaultError`.
    pub fn get(&self, slot: Slot) -> (r: Result<Option<String>, AuthError>)
        ensures
            r matches Err(e) ==> e is VaultError,
    {
        interpret_get_outcome(entry_get_password(self.entry(slot)))
    }

    /// Removes a slot's value; removing an absent one succeeds as a no-op.
    /// Every error is a `VaultError`.
    pub fn delete(&self, slot: Slot) -> (r: Result<(), AuthError>)
        ensures
            r matches Err(e) ==> e is VaultError,
    {
        interpret_delete_outcome(entry_delete_credential(self.entry(slot)))
    }
}

} // verus!
