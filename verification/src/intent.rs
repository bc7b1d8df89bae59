use vstd::prelude::*;

use crate::credential::credential_matches;
use crate::crypto::{argon2_accepts, is_token_char, random_token, str_eq_string, MAX_HASH_PASSWORD_LEN};
use crate::errors::AuthError;
use crate::ids::{format_uuid, fresh_uuid, parse_uuid, uuid_parse_of, uuid_text_of};
use crate::store::{
    expiry_at, has_account_email, has_email_intent, has_reset_token, has_session_token, pushed,
    sat_add_time, Auth, EmailLoginIntent, NewPassLoginIntent, INTENT_CODE_LEN,
    INTENT_DURATION_SECS, NEW_PASS_TOKEN_LEN, SESSION_DURATION_SECS, SESSION_TOKEN_LEN,
};

verus! {

/// What starting an email login hands back: the opaque intent
/// identifier for the caller, and the passcode that the mail
/// collaborator must deliver out-of-band. The passcode is never shown
/// to the requesting caller directly.
pub struct EmailIntentReceipt {
    /// The intent's bearer reference, returned to the caller.
    pub intent_token: String,
    /// The short human-enterable passcode, to be mailed to the address.
    pub pass_key: String,
    pub account_id: u128,
}

/// What starting a password reset hands back: the high-entropy token
/// that the mail collaborator must deliver out-of-band. Nothing beyond
/// an acknowledgement is returned to the requesting caller.
pub struct NewPassIntentReceipt {
    /// The reset token, at once identifier and secret, to be mailed.
    pub token: String,
    pub account_id: u128,
}

impl Auth {
    /// Stores an email login intent under a caller-supplied identifier.
    /// Success is owed exactly where the identifier is not already
    /// taken; the row then expires six minutes after `now`.
    pub fn insert_email_login_intent(
        &mut self,
        id: u128,
        account_id: u128,
        pass_key: &str,
        now: i64,
    ) -> (r: Result<(), AuthError>)
        requires
            old(self).wf(),
        ensures
            final(self).wf(),
            r is Ok <==> !has_email_intent(old(self).email_login_intents@, id),
            r is Err ==> old(self).same_state(*final(self)) && r->Err_0
                == AuthError::StorageConflict,
            r is Ok ==> {
                &&& pushed(old(self).email_login_intents@, final(self).email_login_intents@)
                &&& final(self).email_login_intents@.last().id == id
                &&& final(self).email_login_intents@.last().account_id == account_id
                &&& final(self).email_login_intents@.last().pass_key@ == pass_key@
                &&& final(self).email_login_intents@.last().expires_at == sat_add_time(
                    now,
                    INTENT_DURATION_SECS,
                )
            },
            old(self).same_accounts(*final(self)),
            old(self).same_scopes(*final(self)),
            old(self).same_credentials(*final(self)),
            old(self).same_reset_intents(*final(self)),
            old(self).same_sessions(*final(self)),
    {
        let n = self.email_login_intents.len();
        let mut k: usize = 0;
        while k < n
            invariant
                old(self).wf(),
                *self == *old(self),
                n == self.email_login_intents@.len(),
                k <= n,
                forall|i: int| 0 <= i < k ==> self.email_login_intents@[i].id != id,
            decreases n - k,
        {
            if self.email_login_intents[k].id == id {
                return Err(AuthError::StorageConflict);
            }
            k += 1;
        }
        let expires_at = expiry_at(now, INTENT_DURATION_SECS);
        let row = EmailLoginIntent { id, account_id, pass_key: pass_key.to_owned(), expires_at };
        self.email_login_intents.push(row);
        proof {
            assert(self.email_login_intents@.drop_last() =~= old(self).email_login_intents@);
        }
        Ok(())
    }

    /// Starts an email login: resolves or registers the account, draws
    /// a six-character passcode and a fresh intent identifier, and
    /// stores the intent with a six-minute expiry. The receipt carries
    /// the passcode for the mail collaborator; only the intent token is
    /// for the requesting caller. Fails only where a freshly drawn
    /// identifier collides with a stored row.
    pub fn create_email_login_intent(&mut self, email: &str, now: i64) -> (r: Result<
        EmailIntentReceipt,
        AuthError,
    >)
        requires
            old(self).wf(),
        ensures
            final(self).wf(),
            r is Err ==> r->Err_0 == AuthError::StorageConflict && old(self).same_email_intents(
                *final(self),
            ) && old(self).same_sessions(*final(self)) && (old(self).same_accounts(*final(self))
                || (!has_account_email(old(self).accounts@, email@) && pushed(
                old(self).accounts@,
                final(self).accounts@,
            ) && final(self).accounts@.last().email@ == email@)),
            r is Ok ==> {
                &&& forall|i: int|
                    #![trigger old(self).accounts@[i]]
                    0 <= i < old(self).accounts@.len() && old(self).accounts@[i].email@ == email@
                        ==> r->Ok_0.account_id == old(self).accounts@[i].id && old(self).same_accounts(*final(self))
                &&& (!has_account_email(old(self).accounts@, email@) ==> pushed(
                    old(self).accounts@,
                    final(self).accounts@,
                ) && final(self).accounts@.last().id == r->Ok_0.account_id && final(self).accounts@.last().email@ == email@)
                &&& pushed(old(self).email_login_intents@, final(self).email_login_intents@)
                &&& final(self).email_login_intents@.last().account_id == r->Ok_0.account_id
                &&& final(self).email_login_intents@.last().pass_key@ == r->Ok_0.pass_key@
                &&& final(self).email_login_intents@.last().expires_at == sat_add_time(
                    now,
                    INTENT_DURATION_SECS,
                )
                &&& !has_email_intent(
                    old(self).email_login_intents@,
                    final(self).email_login_intents@.last().id,
                )
                &&& r->Ok_0.pass_key@.len() == INTENT_CODE_LEN as nat
                &&& forall|i: int|
                    0 <= i < r->Ok_0.pass_key@.len() ==> is_token_char(r->Ok_0.pass_key@[i])
                &&& r->Ok_0.intent_token@ == uuid_text_of(
                    final(self).email_login_intents@.last().id,
                )
                &&& uuid_parse_of(r->Ok_0.intent_token@) == Some(
                    final(self).email_login_intents@.last().id,
                )
                &&& old(self).same_sessions(*final(self))
            },
            old(self).same_scopes(*final(self)),
            old(self).same_credentials(*final(self)),
            old(self).same_reset_intents(*final(self)),
    {
        let account_id = match self.get_or_create_account(email) {
            Ok(id) => id,
            Err(e) => {
                return Err(e);
            },
        };
        let pass_key = random_token(INTENT_CODE_LEN);
        let id = fresh_uuid();
        match self.insert_email_login_intent(id, account_id, pass_key.as_str(), now) {
            Ok(()) => {},
            Err(e) => {
                return Err(e);
            },
        }
        let intent_token = format_uuid(id);
        Ok(EmailIntentReceipt { intent_token, pass_key, account_id })
    }

    /// Completes an email login for an already-parsed intent
    /// identifier. An unknown identifier and an expired intent are
    /// reported apart; an expired intent is deleted on sight, while a
    /// passcode mismatch keeps the row so the caller may retry until
    /// expiry. A correct passcode consumes the intent and mints a
    /// session flagged as a passcode login.
    pub fn login_with_email_login_by_id(&mut self, intent_id: u128, code: &str, now: i64) -> (r:
        Result<String, AuthError>)
        requires
            old(self).wf(),
        ensures
            final(self).wf(),
            r == Err::<String, AuthError>(AuthError::UnknownIntent) <==> !has_email_intent(
                old(self).email_login_intents@,
                intent_id,
            ),
            !has_email_intent(old(self).email_login_intents@, intent_id) ==> old(self).same_state(
                *final(self),
            ),
            forall|i: int|
                #![trigger old(self).email_login_intents@[i]]
                0 <= i < old(self).email_login_intents@.len() && old(self).email_login_intents@[
                    i
                ].id == intent_id ==> if old(self).email_login_intents@[i].expires_at < now {
                    r == Err::<String, AuthError>(AuthError::IntentExpired) && final(self).email_login_intents@ == old(self).email_login_intents@.remove(i) && old(self).same_sessions(*final(self))
                } else if old(self).email_login_intents@[i].pass_key@ != code@ {
                    r == Err::<String, AuthError>(AuthError::CodeMismatch) && old(self).same_email_intents(*final(self)) && old(self).same_sessions(*final(self))
                } else {
                    &&& final(self).email_login_intents@ == old(self).email_login_intents@.remove(
                        i,
                    )
                    &&& !has_email_intent(final(self).email_login_intents@, intent_id)
                    &&& match r {
                        Ok(t) => {
                            &&& t@.len() == SESSION_TOKEN_LEN as nat
                            &&& !has_session_token(old(self).sessions@, t@)
                            &&& pushed(old(self).sessions@, final(self).sessions@)
                            &&& final(self).sessions@.last().token@ == t@
                            &&& final(self).sessions@.last().account_id == old(self).email_login_intents@[i].account_id
                            &&& final(self).sessions@.last().password_login == false
                            &&& final(self).sessions@.last().expires_at == sat_add_time(
                                now,
                                SESSION_DURATION_SECS,
                            )
                        },
                        Err(e) => e == AuthError::StorageConflict && old(self).same_sessions(
                            *final(self),
                        ),
                    }
                },
            old(self).same_accounts(*final(self)),
            old(self).same_scopes(*final(self)),
            old(self).same_credentials(*final(self)),
            old(self).same_reset_intents(*final(self)),
    {
        let n = self.email_login_intents.len();
        let mut k: usize = 0;
        while k < n
            invariant
                old(self).wf(),
                *self == *old(self),
                n == self.email_login_intents@.len(),
                k <= n,
                forall|i: int| 0 <= i < k ==> self.email_login_intents@[i].id != intent_id,
            decreases n - k,
        {
            if self.email_login_intents[k].id == intent_id {
                let account_id = self.email_login_intents[k].account_id;
                if self.email_login_intents[k].expires_at < now {
                    self.email_login_intents.remove(k);
                    proof {
                        lemma_email_intents_remove_wf(
                            old(self).email_login_intents@,
                            k as int,
                            intent_id,
                        );
                    }
                    return Err(AuthError::IntentExpired);
                }
                if !str_eq_string(code, &self.email_login_intents[k].pass_key) {
                    return Err(AuthError::CodeMismatch);
                }
                self.email_login_intents.remove(k);
                proof {
                    lemma_email_intents_remove_wf(
                        old(self).email_login_intents@,
                        k as int,
                        intent_id,
                    );
                }
                return self.create_session(account_id, false, now);
            }
            k += 1;
        }
        Err(AuthError::UnknownIntent)
    }

    /// Completes an email login from the textual intent token handed
    /// out at creation: text that spells no identifier is refused as
    /// malformed, anything else is resolved as the identifier it
    /// spells.
    pub fn login_with_email_login(&mut self, intent_token: &str, code: &str, now: i64) -> (r:
        Result<String, AuthError>)
        requires
            old(self).wf(),
        ensures
            final(self).wf(),
            uuid_parse_of(intent_token@) is None ==> r == Err::<String, AuthError>(
                AuthError::MalformedIntentId,
            ) && old(self).same_state(*final(self)),
            uuid_parse_of(intent_token@) matches Some(intent_id) ==> {
                &&& (r == Err::<String, AuthError>(AuthError::UnknownIntent) <==> !has_email_intent(
                    old(self).email_login_intents@,
                    intent_id,
                ))
                &&& (!has_email_intent(old(self).email_login_intents@, intent_id) ==> old(self).same_state(*final(self)))
                &&& forall|i: int|
                    #![trigger old(self).email_login_intents@[i]]
                    0 <= i < old(self).email_login_intents@.len()
                        && old(self).email_login_intents@[i].id == intent_id ==> if old(self).email_login_intents@[i].expires_at < now {
                        r == Err::<String, AuthError>(AuthError::IntentExpired) && final(self).email_login_intents@ == old(self).email_login_intents@.remove(i) && old(self).same_sessions(*final(self))
                    } else if old(self).email_login_intents@[i].pass_key@ != code@ {
                        r == Err::<String, AuthError>(AuthError::CodeMismatch) && old(self).same_email_intents(*final(self)) && old(self).same_sessions(
                            *final(self),
                        )
                    } else {
                        &&& final(self).email_login_intents@ == old(self).email_login_intents@.remove(i)
                        &&& !has_email_intent(final(self).email_login_intents@, intent_id)
                        &&& match r {
                            Ok(t) => {
                                &&& t@.len() == SESSION_TOKEN_LEN as nat
                                &&& !has_session_token(old(self).sessions@, t@)
                                &&& pushed(old(self).sessions@, final(self).sessions@)
                                &&& final(self).sessions@.last().token@ == t@
                                &&& final(self).sessions@.last().account_id == old(self).email_login_intents@[i].account_id
                                &&& final(self).sessions@.last().password_login == false
                                &&& final(self).sessions@.last().expires_at == sat_add_time(
                                    now,
                                    SESSION_DURATION_SECS,
                                )
                            },
                            Err(e) => e == AuthError::StorageConflict && old(self).same_sessions(
                                *final(self),
                            ),
                        }
                    }
            },
            old(self).same_accounts(*final(self)),
            old(self).same_scopes(*final(self)),
            old(self).same_credentials(*final(self)),
            old(self).same_reset_intents(*final(self)),
    {
        match parse_uuid(intent_token) {
            None => Err(AuthError::MalformedIntentId),
            Some(intent_id) => {
                let r = self.login_with_email_login_by_id(intent_id, code, now);
                proof {
                    assert(uuid_parse_of(intent_token@) == Some(intent_id));
                }
                r
            },
        }
    }

    /// Stores a password-reset intent under a caller-supplied token.
    /// Success is owed exactly where the token is not already taken;
    /// the row then expires six minutes after `now`.
    pub fn insert_new_pass_login_intent(&mut self, token: &str, account_id: u128, now: i64) -> (r:
        Result<(), AuthError>)
        requires
            old(self).wf(),
        ensures
            final(self).wf(),
            r is Ok <==> !has_reset_token(old(self).new_pass_login_intents@, token@),
            r is Err ==> old(self).same_state(*final(self)) && r->Err_0
                == AuthError::StorageConflict,
            r is Ok ==> {
                &&& pushed(old(self).new_pass_login_intents@, final(self).new_pass_login_intents@)
                &&& final(self).new_pass_login_intents@.last().id@ == token@
                &&& final(self).new_pass_login_intents@.last().account_id == account_id
                &&& final(self).new_pass_login_intents@.last().expires_at == sat_add_time(
                    now,
                    INTENT_DURATION_SECS,
                )
            },
            old(self).same_accounts(*final(self)),
            old(self).same_scopes(*final(self)),
            old(self).same_credentials(*final(self)),
            old(self).same_email_intents(*final(self)),
            old(self).same_sessions(*final(self)),
    {
        let n = self.new_pass_login_intents.len();
        let mut k: usize = 0;
        while k < n
            invariant
                old(self).wf(),
                *self == *old(self),
                n == self.new_pass_login_intents@.len(),
                k <= n,
                forall|i: int| 0 <= i < k ==> self.new_pass_login_intents@[i].id@ != token@,
            decreases n - k,
        {
            if str_eq_string(token, &self.new_pass_login_intents[k].id) {
                return Err(AuthError::StorageConflict);
            }
            k += 1;
        }
        let expires_at = expiry_at(now, INTENT_DURATION_SECS);
        let row = NewPassLoginIntent { id: token.to_owned(), account_id, expires_at };
        self.new_pass_login_intents.push(row);
        proof {
            assert(self.new_pass_login_intents@.drop_last() =~= old(self).new_pass_login_intents@);
        }
        Ok(())
    }

    /// Starts a password reset: resolves or registers the account,
    /// draws a high-entropy token and stores it with a six-minute
    /// expiry. The receipt carries the token for the mail collaborator;
    /// the requesting caller gets nothing beyond the acknowledgement.
    /// Fails only where a freshly drawn identifier collides with a
    /// stored row.
    pub fn create_new_pass_login_intent(&mut self, email: &str, now: i64) -> (r: Result<
        NewPassIntentReceipt,
        AuthError,
    >)
        requires
            old(self).wf(),
        ensures
            final(self).wf(),
            r is Err ==> r->Err_0 == AuthError::StorageConflict && old(self).same_reset_intents(
                *final(self),
            ) && old(self).same_sessions(*final(self)) && (old(self).same_accounts(*final(self))
                || (!has_account_email(old(self).accounts@, email@) && pushed(
                old(self).accounts@,
                final(self).accounts@,
            ) && final(self).accounts@.last().email@ == email@)),
            r is Ok ==> {
                &&& forall|i: int|
                    #![trigger old(self).accounts@[i]]
                    0 <= i < old(self).accounts@.len() && old(self).accounts@[i].email@ == email@
                        ==> r->Ok_0.account_id == old(self).accounts@[i].id && old(self).same_accounts(*final(self))
                &&& (!has_account_email(old(self).accounts@, email@) ==> pushed(
                    old(self).accounts@,
                    final(self).accounts@,
                ) && final(self).accounts@.last().id == r->Ok_0.account_id && final(self).accounts@.last().email@ == email@)
                &&& pushed(old(self).new_pass_login_intents@, final(self).new_pass_login_intents@)
                &&& final(self).new_pass_login_intents@.last().id@ == r->Ok_0.token@
                &&& final(self).new_pass_login_intents@.last().account_id == r->Ok_0.account_id
                &&& final(self).new_pass_login_intents@.last().expires_at == sat_add_time(
                    now,
                    INTENT_DURATION_SECS,
                )
                &&& !has_reset_token(old(self).new_pass_login_intents@, r->Ok_0.token@)
                &&& r->Ok_0.token@.len() == NEW_PASS_TOKEN_LEN as nat
                &&& forall|i: int| 0 <= i < r->Ok_0.token@.len() ==> is_token_char(r->Ok_0.token@[i])
                &&& old(self).same_sessions(*final(self))
            },
            old(self).same_scopes(*final(self)),
            old(self).same_credentials(*final(self)),
            old(self).same_email_intents(*final(self)),
    {
        let account_id = match self.get_or_create_account(email) {
            Ok(id) => id,
            Err(e) => {
                return Err(e);
            },
        };
        let token = random_token(NEW_PASS_TOKEN_LEN);
        match self.insert_new_pass_login_intent(token.as_str(), account_id, now) {
            Ok(()) => Ok(NewPassIntentReceipt { token, account_id }),
            Err(e) => Err(e),
        }
    }

    /// Completes a password reset. Whatever the outcome past the
    /// lookup, a found token is deleted: presenting it is its one and
    /// only use. Before expiry the intent's account gets the new
    /// password and a session flagged as a password login; after
    /// expiry the call fails and the caller must restart the flow.
    pub fn login_with_new_pass_login(&mut self, token: &str, password: &str, now: i64) -> (r:
        Result<String, AuthError>)
        requires
            old(self).wf(),
        ensures
            final(self).wf(),
            r == Err::<String, AuthError>(AuthError::UnknownToken) <==> !has_reset_token(
                old(self).new_pass_login_intents@,
                token@,
            ),
            !has_reset_token(old(self).new_pass_login_intents@, token@) ==> old(self).same_state(
                *final(self),
            ),
            has_reset_token(old(self).new_pass_login_intents@, token@) ==> !has_reset_token(
                final(self).new_pass_login_intents@,
                token@,
            ),
            forall|i: int|
                #![trigger old(self).new_pass_login_intents@[i]]
                0 <= i < old(self).new_pass_login_intents@.len()
                    && old(self).new_pass_login_intents@[i].id@ == token@ ==> {
                    &&& final(self).new_pass_login_intents@ == old(self).new_pass_login_intents@.remove(i)
                    &&& if old(self).new_pass_login_intents@[i].expires_at < now {
                        r == Err::<String, AuthError>(AuthError::TokenExpired) && old(self).same_credentials(*final(self)) && old(self).same_sessions(*final(self))
                    } else {
                        match r {
                            Ok(t) => {
                                &&& final(self).password_logins@.len() >= 1
                                &&& final(self).password_logins@.last().account_id == old(self).new_pass_login_intents@[i].account_id
                                &&& final(self).password_logins@.last().created_at == now
                                &&& credential_matches(
                                    final(self).password_logins@.last(),
                                    password@,
                                )
                                &&& forall|pw: Seq<char>|
                                    pw.len() <= MAX_HASH_PASSWORD_LEN ==> argon2_accepts(
                                        pw,
                                        final(self).password_logins@.last().salt@,
                                    )
                                &&& t@.len() == SESSION_TOKEN_LEN as nat
                                &&& !has_session_token(old(self).sessions@, t@)
                                &&& pushed(old(self).sessions@, final(self).sessions@)
                                &&& final(self).sessions@.last().token@ == t@
                                &&& final(self).sessions@.last().account_id == old(self).new_pass_login_intents@[i].account_id
                                &&& final(self).sessions@.last().password_login == true
                                &&& final(self).sessions@.last().expires_at == sat_add_time(
                                    now,
                                    SESSION_DURATION_SECS,
                                )
                            },
                            Err(e) => (e == AuthError::PasswordHashingFailed && password@.len()
                                > MAX_HASH_PASSWORD_LEN && old(self).same_credentials(
                                *final(self),
                            ) && old(self).same_sessions(*final(self))) || (e
                                == AuthError::StorageConflict && old(self).same_sessions(
                                *final(self),
                            )),
                        }
                    }
                },
            old(self).same_accounts(*final(self)),
            old(self).same_scopes(*final(self)),
            old(self).same_email_intents(*final(self)),
    {
        let n = self.new_pass_login_intents.len();
        let mut k: usize = 0;
        while k < n
            invariant
                old(self).wf(),
                *self == *old(self),
                n == self.new_pass_login_intents@.len(),
                k <= n,
                forall|i: int| 0 <= i < k ==> self.new_pass_login_intents@[i].id@ != token@,
            decreases n - k,
        {
            if str_eq_string(token, &self.new_pass_login_intents[k].id) {
                let account_id = self.new_pass_login_intents[k].account_id;
                let expires_at = self.new_pass_login_intents[k].expires_at;
                self.new_pass_login_intents.remove(k);
                proof {
                    lemma_reset_intents_remove_wf(
                        old(self).new_pass_login_intents@,
                        k as int,
                        token@,
                    );
                }
                if expires_at < now {
                    return Err(AuthError::TokenExpired);
                }
                match self.set_password(account_id, password, now) {
                    Ok(()) => {},
                    Err(e) => {
                        return Err(e);
                    },
                }
                return self.create_session(account_id, true, now);
            }
            k += 1;
        }
        Err(AuthError::UnknownToken)
    }
}

/// Removing the only email intent row with a given identifier keeps
/// the identifier keys pairwise distinct and leaves no row with it.
proof fn lemma_email_intents_remove_wf(pre: Seq<EmailLoginIntent>, k: int, id: u128)
    requires
        0 <= k < pre.len(),
        pre[k].id == id,
        forall|i: int, j: int| 0 <= i < j < pre.len() ==> pre[i].id != pre[j].id,
    ensures
        forall|i: int, j: int|
            0 <= i < j < pre.remove(k).len() ==> pre.remove(k)[i].id != pre.remove(k)[j].id,
        !has_email_intent(pre.remove(k), id),
{
    let post = pre.remove(k);
    assert forall|i: int, j: int| 0 <= i < j < post.len() implies post[i].id != post[j].id by {
        assert(post[i] == if i < k {
            pre[i]
        } else {
            pre[i + 1]
        });
        assert(post[j] == if j < k {
            pre[j]
        } else {
            pre[j + 1]
        });
    }
    assert forall|i: int| 0 <= i < post.len() implies post[i].id != id by {
        assert(post[i] == if i < k {
            pre[i]
        } else {
            pre[i + 1]
        });
    }
}

/// Removing the only reset intent row with a given token keeps the
/// token keys pairwise distinct and leaves no row with it.
proof fn lemma_reset_intents_remove_wf(pre: Seq<NewPassLoginIntent>, k: int, token: Seq<char>)
    requires
        0 <= k < pre.len(),
        pre[k].id@ == token,
        forall|i: int, j: int| 0 <= i < j < pre.len() ==> pre[i].id@ != pre[j].id@,
    ensures
        forall|i: int, j: int|
            0 <= i < j < pre.remove(k).len() ==> pre.remove(k)[i].id@ != pre.remove(k)[j].id@,
        !has_reset_token(pre.remove(k), token),
{
    let post = pre.remove(k);
    assert forall|i: int, j: int| 0 <= i < j < post.len() implies post[i].id@ != post[j].id@ by {
        assert(post[i] == if i < k {
            pre[i]
        } else {
            pre[i + 1]
        });
        assert(post[j] == if j < k {
            pre[j]
        } else {
            pre[j + 1]
        });
    }
    assert forall|i: int| 0 <= i < post.len() implies post[i].id@ != token by {
        assert(post[i] == if i < k {
            pre[i]
        } else {
            pre[i + 1]
        });
    }
}

} // verus!
