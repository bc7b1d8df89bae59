use vstd::prelude::*;

verus! {

/// Why an authentication operation was refused.
///
/// Mismatches, unknown identifiers and expired challenges are ordinary
/// result values, never panics: callers render different messages for
/// each, so the variants keep "wrong secret", "expired" and "not found"
/// apart.
#[derive(Clone, Copy, Debug, PartialEq, Eq, Structural)]
pub enum AuthError {
    /// The presented intent identifier is not a well-formed identifier string.
    MalformedIntentId,
    /// No email login intent carries the presented identifier.
    UnknownIntent,
    /// The email login intent was presented after its expiry and has
    /// been deleted; the flow must be restarted.
    IntentExpired,
    /// The presented passcode does not match the intent's passcode; the
    /// intent is kept, so the caller may retry until expiry.
    CodeMismatch,
    /// No password-reset intent carries the presented token.
    UnknownToken,
    /// The reset token was presented after its expiry and has been
    /// deleted; the flow must be restarted.
    TokenExpired,
    /// An account with this email already exists.
    DuplicateEmail,
    /// No account is registered under this email.
    NoAccountForEmail,
    /// The account has no password credential and only supports
    /// passcode login.
    NoPasswordCredential,
    /// The password does not match the credential on file.
    WrongPassword,
    /// The hashing backend refused to hash the password.
    PasswordHashingFailed,
    /// A freshly drawn random identifier collided with a stored row.
    StorageConflict,
}

/// The human-readable text for each [`AuthError`] variant.
pub open spec fn message_of(e: AuthError) -> Seq<char> {
    match e {
        AuthError::MalformedIntentId => "Malformed session token"@,
        AuthError::UnknownIntent => "Session token does not correspond to a session intent"@,
        AuthError::IntentExpired => "This session token has already timed out"@,
        AuthError::CodeMismatch => "Passcode does not match"@,
        AuthError::UnknownToken => "Session token does not correspond to a session intent"@,
        AuthError::TokenExpired => "This session token has already timed out"@,
        AuthError::DuplicateEmail => "Failed to create account for this email as one already exists"@,
        AuthError::NoAccountForEmail => "No account found for this email"@,
        AuthError::NoPasswordCredential => "Account has no password login, it only supports email login"@,
        AuthError::WrongPassword => "The password does not match the one on file"@,
        AuthError::PasswordHashingFailed => "Failed to hash password"@,
        AuthError::StorageConflict => "Query Failed: a stored row already carries this identifier"@,
    }
}

impl AuthError {
    /// The message shown to a caller for this error.
    pub fn message(&self) -> (m: &'static str)
        ensures
            m@ == message_of(*self),
    {
        match self {
            AuthError::MalformedIntentId => "Malformed session token",
            AuthError::UnknownIntent => "Session token does not correspond to a session intent",
            AuthError::IntentExpired => "This session token has already timed out",
            AuthError::CodeMismatch => "Passcode does not match",
            AuthError::UnknownToken => "Session token does not correspond to a session intent",
            AuthError::TokenExpired => "This session token has already timed out",
            AuthError::DuplicateEmail => "Failed to create account for this email as one already exists",
            AuthError::NoAccountForEmail => "No account found for this email",
            AuthError::NoPasswordCredential => "Account has no password login, it only supports email login",
            AuthError::WrongPassword => "The password does not match the one on file",
            AuthError::PasswordHashingFailed => "Failed to hash password",
            AuthError::StorageConflict => "Query Failed: a stored row already carries this identifier",
        }
    }
}

} // verus!
