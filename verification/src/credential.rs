use vstd::prelude::*;

use crate::crypto::{
    argon2_accepts, argon2_hash, argon2_phc_of, eq_strings_fixed_scan, generate_salt,
    is_token_char, MAX_HASH_PASSWORD_LEN,
};
use crate::errors::AuthError;
use crate::store::{
    has_account_email, has_credential, has_session_token, pushed, sat_add_time, Auth,
    PasswordLogin, SESSION_DURATION_SECS, SESSION_TOKEN_LEN,
};

verus! {

/// The stored credential accepts this password: the hash on file is
/// the one the backend computes for the password under the stored salt.
pub open spec fn credential_matches(c: PasswordLogin, password: Seq<char>) -> bool {
    c.hash@ == argon2_phc_of(password, c.salt@)
}

impl Auth {
    /// Where the account's single credential row sits, if it has one.
    fn credential_index(&self, account_id: u128) -> (r: Option<usize>)
        ensures
            match r {
                Some(k) => k < self.password_logins@.len() && self.password_logins@[
                    k as int
                ].account_id == account_id,
                None => !has_credential(self.password_logins@, account_id),
            },
    {
        let n = self.password_logins.len();
        let mut k: usize = 0;
        while k < n
            invariant
                n == self.password_logins@.len(),
                k <= n,
                forall|i: int| 0 <= i < k ==> self.password_logins@[i].account_id != account_id,
            decreases n - k,
        {
            if self.password_logins[k].account_id == account_id {
                return Some(k);
            }
            k += 1;
        }
        None
    }

    /// Replaces the account's credential with the given hash and salt:
    /// any existing row is deleted first, then the new row inserted, so
    /// at most one credential per account survives any call sequence.
    pub fn set_password_hash(&mut self, account_id: u128, hash: &str, salt: &str, now: i64)
        requires
            old(self).wf(),
        ensures
            final(self).wf(),
            final(self).password_logins@.len() >= 1,
            final(self).password_logins@.last().account_id == account_id,
            final(self).password_logins@.last().hash@ == hash@,
            final(self).password_logins@.last().salt@ == salt@,
            final(self).password_logins@.last().created_at == now,
            !has_credential(old(self).password_logins@, account_id) ==> final(self).password_logins@ == old(self).password_logins@.push(
                final(self).password_logins@.last(),
            ),
            forall|i: int|
                #![trigger old(self).password_logins@[i]]
                0 <= i < old(self).password_logins@.len() && old(self).password_logins@[
                    i
                ].account_id == account_id ==> final(self).password_logins@ == old(self).password_logins@.remove(i).push(final(self).password_logins@.last()),
            old(self).same_accounts(*final(self)),
            old(self).same_scopes(*final(self)),
            old(self).same_email_intents(*final(self)),
            old(self).same_reset_intents(*final(self)),
            old(self).same_sessions(*final(self)),
    {
        match self.credential_index(account_id) {
            Some(k) => {
                self.password_logins.remove(k);
                proof {
                    let pre = old(self).password_logins@;
                    let post = self.password_logins@;
                    assert forall|x: int, y: int|
                        0 <= x < y < post.len() implies post[x].account_id
                        != post[y].account_id by {
                        assert(post[x] == if x < k {
                            pre[x]
                        } else {
                            pre[x + 1]
                        });
                        assert(post[y] == if y < k {
                            pre[y]
                        } else {
                            pre[y + 1]
                        });
                    }
                    assert forall|x: int|
                        0 <= x < post.len() implies post[x].account_id != account_id by {
                        assert(post[x] == if x < k {
                            pre[x]
                        } else {
                            pre[x + 1]
                        });
                    }
                }
            },
            None => {},
        }
        let row = PasswordLogin {
            account_id,
            hash: hash.to_owned(),
            salt: salt.to_owned(),
            created_at: now,
        };
        self.password_logins.push(row);
        proof {
            assert(self.password_logins@.drop_last() =~= self.password_logins@.remove(
                self.password_logins@.len() - 1,
            ));
        }
    }

    /// Draws a fresh salt, hashes the password under it, and replaces
    /// the account's credential with the outcome. The previous password
    /// is destroyed irreversibly. Success is owed for every password
    /// within the backend's size bound; a refused computation changes
    /// nothing.
    pub fn set_password(&mut self, account_id: u128, password: &str, now: i64) -> (r: Result<
        (),
        AuthError,
    >)
        requires
            old(self).wf(),
        ensures
            final(self).wf(),
            password@.len() <= MAX_HASH_PASSWORD_LEN ==> r is Ok,
            r is Err ==> old(self).same_state(*final(self)) && r->Err_0
                == AuthError::PasswordHashingFailed,
            r is Ok ==> {
                &&& final(self).password_logins@.len() >= 1
                &&& final(self).password_logins@.last().account_id == account_id
                &&& final(self).password_logins@.last().created_at == now
                &&& credential_matches(final(self).password_logins@.last(), password@)
                &&& forall|pw: Seq<char>|
                    pw.len() <= MAX_HASH_PASSWORD_LEN ==> argon2_accepts(
                        pw,
                        final(self).password_logins@.last().salt@,
                    )
                &&& (!has_credential(old(self).password_logins@, account_id) ==> final(self).password_logins@ == old(self).password_logins@.push(
                    final(self).password_logins@.last(),
                ))
                &&& forall|i: int|
                    #![trigger old(self).password_logins@[i]]
                    0 <= i < old(self).password_logins@.len() && old(self).password_logins@[
                        i
                    ].account_id == account_id ==> final(self).password_logins@ == old(self).password_logins@.remove(i).push(final(self).password_logins@.last())
            },
            old(self).same_accounts(*final(self)),
            old(self).same_scopes(*final(self)),
            old(self).same_email_intents(*final(self)),
            old(self).same_reset_intents(*final(self)),
            old(self).same_sessions(*final(self)),
    {
        let salt = generate_salt();
        match argon2_hash(password, salt.as_str()) {
            None => Err(AuthError::PasswordHashingFailed),
            Some(h) => {
                self.set_password_hash(account_id, h.as_str(), salt.as_str(), now);
                Ok(())
            },
        }
    }

    /// Recomputes the hash of `password` under the account's stored
    /// salt and compares it with the stored hash, without early exit.
    /// A missing credential is the error `NoPasswordCredential`; a
    /// mismatch is the ordinary result `false`, not an error. A result
    /// is owed whenever the stored salt accepts the password, which
    /// every salt this crate stores does up to the size bound.
    pub fn verify_password(&self, account_id: u128, password: &str) -> (r: Result<
        bool,
        AuthError,
    >)
        requires
            self.wf(),
        ensures
            r == Err::<bool, AuthError>(AuthError::NoPasswordCredential) <==> !has_credential(
                self.password_logins@,
                account_id,
            ),
            r is Err ==> r->Err_0 == AuthError::NoPasswordCredential || r->Err_0
                == AuthError::PasswordHashingFailed,
            forall|i: int|
                #![trigger self.password_logins@[i]]
                0 <= i < self.password_logins@.len() && self.password_logins@[i].account_id
                    == account_id ==> (r == Err::<bool, AuthError>(
                    AuthError::PasswordHashingFailed,
                ) <==> !argon2_accepts(password@, self.password_logins@[i].salt@)),
            forall|i: int|
                #![trigger self.password_logins@[i]]
                0 <= i < self.password_logins@.len() && self.password_logins@[i].account_id
                    == account_id && r is Ok ==> r->Ok_0 == credential_matches(
                    self.password_logins@[i],
                    password@,
                ),
    {
        match self.credential_index(account_id) {
            None => Err(AuthError::NoPasswordCredential),
            Some(k) => {
                match argon2_hash(password, self.password_logins[k].salt.as_str()) {
                    None => Err(AuthError::PasswordHashingFailed),
                    Some(h) => {
                        let same = eq_strings_fixed_scan(
                            h.as_str(),
                            self.password_logins[k].hash.as_str(),
                        );
                        Ok(same)
                    },
                }
            },
        }
    }

    /// Authenticates an email and password and mints a session flagged
    /// as a password login. Mismatch, missing account and missing
    /// credential are reported apart; no error path mints a session.
    pub fn login_with_password(&mut self, email: &str, password: &str, now: i64) -> (r: Result<
        String,
        AuthError,
    >)
        requires
            old(self).wf(),
        ensures
            final(self).wf(),
            r == Err::<String, AuthError>(AuthError::NoAccountForEmail) <==> !has_account_email(
                old(self).accounts@,
                email@,
            ),
            r is Err ==> old(self).same_state(*final(self)) && (r->Err_0
                == AuthError::NoAccountForEmail || r->Err_0 == AuthError::NoPasswordCredential
                || r->Err_0 == AuthError::WrongPassword || r->Err_0
                == AuthError::PasswordHashingFailed || r->Err_0 == AuthError::StorageConflict),
            forall|i: int|
                #![trigger old(self).accounts@[i]]
                0 <= i < old(self).accounts@.len() && old(self).accounts@[i].email@ == email@ ==> {
                    &&& (r == Err::<String, AuthError>(AuthError::NoPasswordCredential)
                        <==> !has_credential(
                        old(self).password_logins@,
                        old(self).accounts@[i].id,
                    ))
                    &&& (r is Ok ==> final(self).sessions@.last().account_id == old(self).accounts@[i].id)
                    &&& forall|j: int|
                        #![trigger old(self).password_logins@[j]]
                        0 <= j < old(self).password_logins@.len() && old(self).password_logins@[
                            j
                        ].account_id == old(self).accounts@[i].id ==> {
                            &&& (r == Err::<String, AuthError>(AuthError::WrongPassword)
                                ==> !credential_matches(old(self).password_logins@[j], password@))
                            &&& (r is Ok ==> credential_matches(
                                old(self).password_logins@[j],
                                password@,
                            ))
                            &&& (r == Err::<String, AuthError>(AuthError::PasswordHashingFailed)
                                <==> !argon2_accepts(
                                password@,
                                old(self).password_logins@[j].salt@,
                            ))
                            &&& (!credential_matches(old(self).password_logins@[j], password@)
                                ==> r == Err::<String, AuthError>(AuthError::WrongPassword) || r
                                == Err::<String, AuthError>(AuthError::PasswordHashingFailed))
                            &&& (credential_matches(old(self).password_logins@[j], password@)
                                ==> r is Ok || r == Err::<String, AuthError>(
                                AuthError::PasswordHashingFailed,
                            ) || r == Err::<String, AuthError>(AuthError::StorageConflict))
                        }
                },
            r is Ok ==> {
                &&& r->Ok_0@.len() == SESSION_TOKEN_LEN as nat
                &&& forall|i: int| 0 <= i < r->Ok_0@.len() ==> is_token_char(r->Ok_0@[i])
                &&& !has_session_token(old(self).sessions@, r->Ok_0@)
                &&& pushed(old(self).sessions@, final(self).sessions@)
                &&& final(self).sessions@.last().token@ == r->Ok_0@
                &&& final(self).sessions@.last().password_login == true
                &&& final(self).sessions@.last().expires_at == sat_add_time(
                    now,
                    SESSION_DURATION_SECS,
                )
            },
            old(self).same_accounts(*final(self)),
            old(self).same_scopes(*final(self)),
            old(self).same_credentials(*final(self)),
            old(self).same_email_intents(*final(self)),
            old(self).same_reset_intents(*final(self)),
    {
        let account_id = match self.get_account(email) {
            Some(id) => id,
            None => {
                return Err(AuthError::NoAccountForEmail);
            },
        };
        let k = match self.credential_index(account_id) {
            Some(k) => k,
            None => {
                return Err(AuthError::NoPasswordCredential);
            },
        };
        let matched = match argon2_hash(password, self.password_logins[k].salt.as_str()) {
            None => {
                return Err(AuthError::PasswordHashingFailed);
            },
            Some(h) => eq_strings_fixed_scan(h.as_str(), self.password_logins[k].hash.as_str()),
        };
        if matched {
            self.create_session(account_id, true, now)
        } else {
            Err(AuthError::WrongPassword)
        }
    }

    /// Registers a brand-new account under the email, stores a
    /// credential for the password, and mints a session flagged as a
    /// password login. A taken email is refused outright; later steps
    /// commit what came before them, as each is its own storage write.
    pub fn create_with_password(&mut self, email: &str, password: &str, now: i64) -> (r: Result<
        String,
        AuthError,
    >)
        requires
            old(self).wf(),
        ensures
            final(self).wf(),
            r == Err::<String, AuthError>(AuthError::DuplicateEmail) <==> has_account_email(
                old(self).accounts@,
                email@,
            ),
            r == Err::<String, AuthError>(AuthError::DuplicateEmail) ==> old(self).same_state(
                *final(self),
            ),
            r is Err ==> old(self).same_sessions(*final(self)) && (r->Err_0
                == AuthError::DuplicateEmail || r->Err_0 == AuthError::PasswordHashingFailed
                || r->Err_0 == AuthError::StorageConflict),
            r == Err::<String, AuthError>(AuthError::PasswordHashingFailed)
                ==> password@.len() > MAX_HASH_PASSWORD_LEN,
            r == Err::<String, AuthError>(AuthError::PasswordHashingFailed) ==> pushed(
                old(self).accounts@,
                final(self).accounts@,
            ) && final(self).accounts@.last().email@ == email@ && old(self).same_credentials(
                *final(self),
            ),
            r == Err::<String, AuthError>(AuthError::StorageConflict) ==> old(self).same_state(
                *final(self),
            ) || (pushed(old(self).accounts@, final(self).accounts@) && final(self).accounts@.last().email@ == email@),
            r is Ok ==> {
                &&& !has_account_email(old(self).accounts@, email@)
                &&& pushed(old(self).accounts@, final(self).accounts@)
                &&& final(self).accounts@.last().email@ == email@
                &&& final(self).password_logins@.len() >= 1
                &&& final(self).password_logins@.last().account_id == final(self).accounts@.last().id
                &&& final(self).password_logins@.last().created_at == now
                &&& credential_matches(final(self).password_logins@.last(), password@)
                &&& forall|pw: Seq<char>|
                    pw.len() <= MAX_HASH_PASSWORD_LEN ==> argon2_accepts(
                        pw,
                        final(self).password_logins@.last().salt@,
                    )
                &&& r->Ok_0@.len() == SESSION_TOKEN_LEN as nat
                &&& !has_session_token(old(self).sessions@, r->Ok_0@)
                &&& pushed(old(self).sessions@, final(self).sessions@)
                &&& final(self).sessions@.last().token@ == r->Ok_0@
                &&& final(self).sessions@.last().account_id == final(self).accounts@.last().id
                &&& final(self).sessions@.last().password_login == true
                &&& final(self).sessions@.last().expires_at == sat_add_time(
                    now,
                    SESSION_DURATION_SECS,
                )
            },
            old(self).same_scopes(*final(self)),
            old(self).same_email_intents(*final(self)),
            old(self).same_reset_intents(*final(self)),
    {
        let account_id = match self.create_account(email) {
            Ok(id) => id,
            Err(e) => {
                return Err(e);
            },
        };
        match self.set_password(account_id, password, now) {
            Ok(()) => {},
            Err(e) => {
                return Err(e);
            },
        }
        self.create_session(account_id, true, now)
    }
}

} // verus!
