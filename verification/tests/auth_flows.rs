use lunu_auth::errors::AuthError;
use lunu_auth::models::ScopeKind;
use lunu_auth::store::Auth;

fn is_token_char(c: char) -> bool {
    c.is_ascii_digit() || c.is_ascii_uppercase() || c.is_ascii_lowercase()
}

#[test]
fn create_with_password_then_login() {
    let mut auth = Auth::new();
    let t0 = auth
        .create_with_password("u@x.com", "secret1", 1_000)
        .expect("creation must mint a session");
    assert_eq!(t0.chars().count(), 128);
    assert!(t0.chars().all(is_token_char));

    let t1 = auth
        .login_with_password("u@x.com", "secret1", 2_000)
        .expect("login with the set password must succeed");
    assert_eq!(t1.chars().count(), 128);
    assert_ne!(t1, t0, "re-authentication must mint a fresh token");

    let sessions_before = auth.sessions.len();
    let wrong = auth.login_with_password("u@x.com", "wrong", 3_000);
    assert!(matches!(wrong, Err(AuthError::WrongPassword)));
    assert_eq!(auth.sessions.len(), sessions_before, "a failed login must not mint a session");
}

#[test]
fn duplicate_email_is_refused() {
    let mut auth = Auth::new();
    auth.create_with_password("u@x.com", "secret1", 0).unwrap();
    let second = auth.create_with_password("u@x.com", "secret2", 1);
    assert!(matches!(second, Err(AuthError::DuplicateEmail)));
    assert_eq!(auth.accounts.len(), 1, "the losing call must not add an account");
}

#[test]
fn login_with_password_reports_missing_parts() {
    let mut auth = Auth::new();
    let no_account = auth.login_with_password("nobody@x.com", "pw", 0);
    assert!(matches!(no_account, Err(AuthError::NoAccountForEmail)));

    let account_id = auth.get_or_create_account("code-only@x.com").unwrap();
    let no_credential = auth.login_with_password("code-only@x.com", "pw", 0);
    assert!(matches!(no_credential, Err(AuthError::NoPasswordCredential)));
    assert!(auth.get_account("code-only@x.com") == Some(account_id));
}

#[test]
fn password_round_trip() {
    let mut auth = Auth::new();
    let account_id = auth.get_or_create_account("p@x.com").unwrap();
    auth.set_password(account_id, "hunter2", 10).unwrap();
    // The stored credential is a memory-hard hash string, never the
    // plaintext itself.
    assert_eq!(auth.password_logins.len(), 1);
    assert_ne!(auth.password_logins[0].hash, "hunter2");
    assert!(auth.password_logins[0].hash.starts_with("$argon2"));
    assert_eq!(auth.password_logins[0].salt.chars().count(), 22);
    assert!(auth
        .password_logins[0]
        .salt
        .chars()
        .all(|c| c.is_ascii_alphanumeric() || c == '+' || c == '/'));
    assert_eq!(auth.verify_password(account_id, "hunter2").unwrap(), true);
    assert_eq!(auth.verify_password(account_id, "hunter3").unwrap(), false);
    assert_eq!(auth.verify_password(account_id, "").unwrap(), false);
    assert!(matches!(
        auth.verify_password(account_id + 1, "hunter2"),
        Err(AuthError::NoPasswordCredential)
    ));
}

#[test]
fn at_most_one_credential_per_account() {
    let mut auth = Auth::new();
    let account_id = auth.get_or_create_account("p@x.com").unwrap();
    auth.set_password(account_id, "first", 1).unwrap();
    auth.set_password(account_id, "second", 2).unwrap();
    auth.set_password(account_id, "third", 3).unwrap();
    let rows = auth
        .password_logins
        .iter()
        .filter(|c| c.account_id == account_id)
        .count();
    assert_eq!(rows, 1, "replacing a password must leave one credential row");
    assert_eq!(auth.verify_password(account_id, "third").unwrap(), true);
    assert_eq!(auth.verify_password(account_id, "first").unwrap(), false);
}

#[test]
fn fetch_account_accepts_only_live_sessions() {
    let mut auth = Auth::new();
    let account_id = auth.get_or_create_account("s@x.com").unwrap();
    auth.add_scope(account_id, ScopeKind::Customer);
    auth.add_scope(account_id, ScopeKind::Public);
    let token = auth.create_session(account_id, true, 1_000).unwrap();

    let hit = auth.fetch_account(&token, 2_000).expect("a live session must resolve");
    assert_eq!(hit.account_id, account_id);
    assert_eq!(hit.scopes, vec![ScopeKind::Customer, ScopeKind::Public]);

    // Expiry is one week; the boundary instant is still accepted.
    assert!(auth.fetch_account(&token, 1_000 + 604_800).is_some());

    // One second past expiry the row is removed on first sight...
    assert!(auth.fetch_account(&token, 1_000 + 604_801).is_none());
    assert_eq!(auth.sessions.len(), 0);
    // ...and every later call stays unauthenticated, even before expiry.
    assert!(auth.fetch_account(&token, 2_000).is_none());
}

#[test]
fn fetch_account_unknown_token_is_unauthenticated() {
    let mut auth = Auth::new();
    assert!(auth.fetch_account("no-such-token", 0).is_none());
}

#[test]
fn email_login_intent_round_trip() {
    let mut auth = Auth::new();
    let receipt = auth.create_email_login_intent("m@x.com", 5_000).unwrap();
    assert_eq!(receipt.pass_key.chars().count(), 6);
    assert!(receipt.pass_key.chars().all(is_token_char));
    assert_eq!(receipt.intent_token.chars().count(), 36);
    // The intent token is a hyphenated identifier, not the passcode.
    for (i, c) in receipt.intent_token.chars().enumerate() {
        if i == 8 || i == 13 || i == 18 || i == 23 {
            assert_eq!(c, '-');
        } else {
            assert!(c.is_ascii_hexdigit());
        }
    }

    // A wrong code is refused and the intent survives for a retry.
    let wrong = auth.login_with_email_login(&receipt.intent_token, "!!", 5_100);
    assert!(matches!(wrong, Err(AuthError::CodeMismatch)));

    let token = auth
        .login_with_email_login(&receipt.intent_token, &receipt.pass_key, 5_200)
        .expect("the correct code before expiry must mint a session");
    let hit = auth.fetch_account(&token, 5_300).unwrap();
    assert_eq!(hit.account_id, receipt.account_id);

    // The intent is consumed: the same identifier is now unknown.
    let again = auth.login_with_email_login(&receipt.intent_token, &receipt.pass_key, 5_400);
    assert!(matches!(again, Err(AuthError::UnknownIntent)));
}

#[test]
fn email_login_intent_expires() {
    let mut auth = Auth::new();
    let receipt = auth.create_email_login_intent("m@x.com", 10_000).unwrap();
    // The six-minute window closes at 10_360; past it even the correct
    // code fails with "expired", not success.
    let late = auth.login_with_email_login(&receipt.intent_token, &receipt.pass_key, 10_361);
    assert!(matches!(late, Err(AuthError::IntentExpired)));
    // The expired row was deleted, so the next attempt is "unknown".
    let gone = auth.login_with_email_login(&receipt.intent_token, &receipt.pass_key, 10_362);
    assert!(matches!(gone, Err(AuthError::UnknownIntent)));
}

#[test]
fn email_login_intent_boundary_and_malformed() {
    let mut auth = Auth::new();
    let receipt = auth.create_email_login_intent("m@x.com", 0).unwrap();
    let malformed = auth.login_with_email_login("not-an-identifier", &receipt.pass_key, 100);
    assert!(matches!(malformed, Err(AuthError::MalformedIntentId)));
    // At the boundary instant the intent is still presentable.
    let ok = auth.login_with_email_login(&receipt.intent_token, &receipt.pass_key, 360);
    assert!(ok.is_ok());
}

#[test]
fn email_login_session_is_flagged_as_passcode_login() {
    let mut auth = Auth::new();
    let receipt = auth.create_email_login_intent("m@x.com", 0).unwrap();
    auth.login_with_email_login(&receipt.intent_token, &receipt.pass_key, 1).unwrap();
    assert_eq!(auth.sessions.len(), 1);
    assert!(!auth.sessions[0].password_login);
}

#[test]
fn new_pass_login_is_single_use() {
    let mut auth = Auth::new();
    let receipt = auth.create_new_pass_login_intent("r@x.com", 20_000).unwrap();
    assert_eq!(receipt.token.chars().count(), 64);
    assert!(receipt.token.chars().all(is_token_char));

    let session = auth
        .login_with_new_pass_login(&receipt.token, "fresh-password", 20_100)
        .expect("a live reset token must set the password and mint a session");
    assert_eq!(auth.fetch_account(&session, 20_200).unwrap().account_id, receipt.account_id);
    assert!(auth.sessions.iter().any(|s| s.token == session && s.password_login));

    // The token went out of existence with its one use.
    let replay = auth.login_with_new_pass_login(&receipt.token, "other", 20_300);
    assert!(matches!(replay, Err(AuthError::UnknownToken)));

    // The password it set is the one that logs in now.
    assert!(auth.login_with_password("r@x.com", "fresh-password", 20_400).is_ok());
    assert!(matches!(
        auth.login_with_password("r@x.com", "old-guess", 20_500),
        Err(AuthError::WrongPassword)
    ));
}

#[test]
fn new_pass_login_expired_token_is_deleted() {
    let mut auth = Auth::new();
    let receipt = auth.create_new_pass_login_intent("r@x.com", 0).unwrap();
    let late = auth.login_with_new_pass_login(&receipt.token, "pw", 361);
    assert!(matches!(late, Err(AuthError::TokenExpired)));
    assert_eq!(auth.new_pass_login_intents.len(), 0, "one presentation deletes the row");
    let replay = auth.login_with_new_pass_login(&receipt.token, "pw", 362);
    assert!(matches!(replay, Err(AuthError::UnknownToken)));
    // The expired attempt must not have set a password.
    assert!(matches!(
        auth.login_with_password("r@x.com", "pw", 363),
        Err(AuthError::NoPasswordCredential)
    ));
}

#[test]
fn new_pass_login_unknown_token() {
    let mut auth = Auth::new();
    let unknown = auth.login_with_new_pass_login("never-issued", "pw", 0);
    assert!(matches!(unknown, Err(AuthError::UnknownToken)));
}

#[test]
fn reset_for_unseen_email_registers_the_account() {
    let mut auth = Auth::new();
    let receipt = auth.create_new_pass_login_intent("new@x.com", 0).unwrap();
    assert_eq!(auth.get_account("new@x.com"), Some(receipt.account_id));
    let receipt2 = auth.create_email_login_intent("new@x.com", 0).unwrap();
    assert_eq!(receipt2.account_id, receipt.account_id, "get-or-create must reuse the account");
    assert_eq!(auth.accounts.len(), 1);
}

#[test]
fn sweep_removes_exactly_the_expired_rows() {
    let mut auth = Auth::new();
    let account_id = auth.get_or_create_account("w@x.com").unwrap();
    auth.set_password(account_id, "keep-me", 0).unwrap();

    // One expired and one live row of each ephemeral kind, against a
    // single cutoff of 1_000_000.
    let dead_intent = auth.create_email_login_intent("w@x.com", 0).unwrap();
    let live_intent = auth.create_email_login_intent("w@x.com", 999_800).unwrap();
    let dead_reset = auth.create_new_pass_login_intent("w@x.com", 0).unwrap();
    let live_reset = auth.create_new_pass_login_intent("w@x.com", 999_800).unwrap();
    let dead_session = auth.create_session(account_id, true, 0).unwrap();
    let live_session = auth.create_session(account_id, true, 999_800).unwrap();

    auth.sweep(1_000_000);

    assert_eq!(auth.email_login_intents.len(), 1);
    assert_eq!(auth.new_pass_login_intents.len(), 1);
    assert_eq!(auth.sessions.len(), 1);
    assert_eq!(auth.new_pass_login_intents[0].id, live_reset.token);
    assert_eq!(auth.sessions[0].token, live_session);
    assert_eq!(auth.accounts.len(), 1, "sweeping must not touch accounts");
    assert_eq!(auth.password_logins.len(), 1, "sweeping must not touch credentials");

    // The live rows still work; the dead ones are gone for good.
    assert!(auth.fetch_account(&dead_session, 1_000_000).is_none());
    assert!(auth.fetch_account(&live_session, 1_000_000).is_some());
    assert!(matches!(
        auth.login_with_email_login(&dead_intent.intent_token, &dead_intent.pass_key, 1_000_000),
        Err(AuthError::UnknownIntent)
    ));
    assert!(auth
        .login_with_email_login(&live_intent.intent_token, &live_intent.pass_key, 1_000_000)
        .is_ok());
    assert!(matches!(
        auth.login_with_new_pass_login(&dead_reset.token, "pw", 1_000_000),
        Err(AuthError::UnknownToken)
    ));

    // A second sweep at the same cutoff is idempotent.
    let intents = auth.email_login_intents.len();
    let resets = auth.new_pass_login_intents.len();
    let sessions = auth.sessions.len();
    auth.sweep(1_000_000);
    assert_eq!(auth.email_login_intents.len(), intents);
    assert_eq!(auth.new_pass_login_intents.len(), resets);
    assert_eq!(auth.sessions.len(), sessions);
}

#[test]
fn cleanup_db_performs_a_sweep() {
    let mut auth = Auth::new();
    auth.create_email_login_intent("w@x.com", 0).unwrap();
    auth.cleanup_db(500);
    assert_eq!(auth.email_login_intents.len(), 0);
}

#[test]
fn inserting_a_taken_key_is_a_storage_conflict() {
    let mut auth = Auth::new();
    assert!(auth.insert_account(9, "a@x.com").is_ok());
    assert!(matches!(auth.insert_account(9, "b@x.com"), Err(AuthError::StorageConflict)));
    assert!(auth.insert_session("tok", 9, true, 0).is_ok());
    assert!(matches!(
        auth.insert_session("tok", 9, false, 1),
        Err(AuthError::StorageConflict)
    ));
    assert!(auth.insert_email_login_intent(4, 9, "abc123", 0).is_ok());
    assert!(matches!(
        auth.insert_email_login_intent(4, 9, "zzz999", 1),
        Err(AuthError::StorageConflict)
    ));
    assert!(auth.insert_new_pass_login_intent("reset-tok", 9, 0).is_ok());
    assert!(matches!(
        auth.insert_new_pass_login_intent("reset-tok", 9, 1),
        Err(AuthError::StorageConflict)
    ));
}

#[test]
fn unusable_stored_salt_is_a_hashing_failure() {
    let mut auth = Auth::new();
    let account_id = auth.get_or_create_account("h@x.com").unwrap();
    auth.set_password(account_id, "pw", 0).unwrap();
    // A salt the hashing backend refuses (too short to be a B64 salt)
    // surfaces as a hashing failure, not as a silent mismatch.
    auth.password_logins[0].salt = String::from("x");
    assert!(matches!(
        auth.verify_password(account_id, "pw"),
        Err(AuthError::PasswordHashingFailed)
    ));
    assert!(matches!(
        auth.login_with_password("h@x.com", "pw", 1),
        Err(AuthError::PasswordHashingFailed)
    ));
}

#[test]
fn error_messages_match_the_served_text() {
    assert_eq!(
        AuthError::CodeMismatch.message(),
        "Passcode does not match"
    );
    assert_eq!(
        AuthError::DuplicateEmail.message(),
        "Failed to create account for this email as one already exists"
    );
    assert_eq!(
        AuthError::NoPasswordCredential.message(),
        "Account has no password login, it only supports email login"
    );
    assert_eq!(
        AuthError::WrongPassword.message(),
        "The password does not match the one on file"
    );
}
