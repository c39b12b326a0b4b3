//! The error taxonomy of the library. Every failure a caller can see is one
//! of these variants; "no secret stored" is deliberately not among them.

use vstd::prelude::*;

verus! {

/// A terminal failure of one operation. None of these is retried internally.
#[derive(Debug, PartialEq, Eq)]
pub enum AuthError {
    /// The platform credential vault could not be opened, read or written.
    /// Carries the vault's own message.
    VaultError(String),
    /// The local callback port could not be bound. Carries the bind message.
    BindError(String),
    /// The redirect request carried no `code` query parameter, or its target
    /// could not be read as one.
    ParseError,
    /// No redirect arrived before the deadline.
    TimeoutError,
}

} // verus!
