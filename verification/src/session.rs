use vstd::prelude::*;

use crate::crypto::{is_token_char, random_token, str_eq_string};
use crate::errors::AuthError;
use crate::models::ScopeKind;
use crate::store::{
    expiry_at, has_session_token, lemma_scopes_for_step, pushed, sat_add_time, scopes_for, Auth,
    Identity, Session, SESSION_DURATION_SECS, SESSION_TOKEN_LEN,
};

verus! {

impl Auth {
    /// The scopes stored for an account, in store order.
    pub fn scopes_of_account(&self, account_id: u128) -> (out: Vec<ScopeKind>)
        ensures
            out@ == scopes_for(self.scopes@, account_id),
    {
        let mut out: Vec<ScopeKind> = Vec::new();
        let n = self.scopes.len();
        let mut k: usize = 0;
        while k < n
            invariant
                n == self.scopes@.len(),
                k <= n,
                out@ == scopes_for(self.scopes@.take(k as int), account_id),
            decreases n - k,
        {
            proof {
                lemma_scopes_for_step(self.scopes@, account_id, k as int);
            }
            if self.scopes[k].account_id == account_id {
                out.push(self.scopes[k].scope);
            }
            k += 1;
        }
        proof {
            assert(self.scopes@.take(n as int) =~= self.scopes@);
        }
        out
    }

    /// Stores a session row under a caller-supplied token. Success is
    /// owed exactly where the token is not already a session key; the
    /// row then expires one week after `now`.
    pub fn insert_session(
        &mut self,
        token: &str,
        account_id: u128,
        password_login: bool,
        now: i64,
    ) -> (r: Result<(), AuthError>)
        requires
            old(self).wf(),
        ensures
            final(self).wf(),
            r is Ok <==> !has_session_token(old(self).sessions@, token@),
            r is Err ==> old(self).same_state(*final(self)) && r->Err_0
                == AuthError::StorageConflict,
            r is Ok ==> {
                &&& pushed(old(self).sessions@, final(self).sessions@)
                &&& final(self).sessions@.last().token@ == token@
                &&& final(self).sessions@.last().account_id == account_id
                &&& final(self).sessions@.last().password_login == password_login
                &&& final(self).sessions@.last().expires_at == sat_add_time(
                    now,
                    SESSION_DURATION_SECS,
                )
            },
            old(self).same_accounts(*final(self)),
            old(self).same_scopes(*final(self)),
            old(self).same_credentials(*final(self)),
            old(self).same_email_intents(*final(self)),
            old(self).same_reset_intents(*final(self)),
    {
        let n = self.sessions.len();
        let mut k: usize = 0;
        while k < n
            invariant
                old(self).wf(),
                *self == *old(self),
                n == self.sessions@.len(),
                k <= n,
                forall|i: int| 0 <= i < k ==> self.sessions@[i].token@ != token@,
            decreases n - k,
        {
            if str_eq_string(token, &self.sessions[k].token) {
                return Err(AuthError::StorageConflict);
            }
            k += 1;
        }
        let expires_at = expiry_at(now, SESSION_DURATION_SECS);
        let row = Session { token: token.to_owned(), account_id, password_login, expires_at };
        self.sessions.push(row);
        proof {
            assert(self.sessions@.drop_last() =~= old(self).sessions@);
        }
        Ok(())
    }

    /// Mints a fresh high-entropy session token for the account and
    /// stores it with a one-week expiry. Fails only where the drawn
    /// token collides with a stored session.
    pub fn create_session(&mut self, account_id: u128, password_login: bool, now: i64) -> (r:
        Result<String, AuthError>)
        requires
            old(self).wf(),
        ensures
            final(self).wf(),
            r is Err ==> old(self).same_state(*final(self)) && r->Err_0
                == AuthError::StorageConflict,
            r is Ok ==> {
                &&& r->Ok_0@.len() == SESSION_TOKEN_LEN as nat
                &&& forall|i: int| 0 <= i < r->Ok_0@.len() ==> is_token_char(r->Ok_0@[i])
                &&& !has_session_token(old(self).sessions@, r->Ok_0@)
                &&& pushed(old(self).sessions@, final(self).sessions@)
                &&& final(self).sessions@.last().token@ == r->Ok_0@
                &&& final(self).sessions@.last().account_id == account_id
                &&& final(self).sessions@.last().password_login == password_login
                &&& final(self).sessions@.last().expires_at == sat_add_time(
                    now,
                    SESSION_DURATION_SECS,
                )
            },
            old(self).same_accounts(*final(self)),
            old(self).same_scopes(*final(self)),
            old(self).same_credentials(*final(self)),
            old(self).same_email_intents(*final(self)),
            old(self).same_reset_intents(*final(self)),
    {
        let token = random_token(SESSION_TOKEN_LEN);
        match self.insert_session(token.as_str(), account_id, password_login, now) {
            Ok(()) => Ok(token),
            Err(e) => Err(e),
        }
    }

    /// Resolves a session token to the account identity it
    /// authenticates. An unknown token is no error: the caller treats
    /// `None` as "unauthenticated". A stored session past its expiry is
    /// deleted on sight and reported the same way.
    pub fn fetch_account(&mut self, token: &str, now: i64) -> (r: Option<Identity>)
        requires
            old(self).wf(),
        ensures
            final(self).wf(),
            !has_session_token(old(self).sessions@, token@) ==> r is None && old(
                self,
            ).same_sessions(*final(self)),
            forall|i: int|
                #![trigger old(self).sessions@[i]]
                0 <= i < old(self).sessions@.len() && old(self).sessions@[i].token@ == token@
                    ==> if old(self).sessions@[i].expires_at < now {
                    r is None && final(self).sessions@ == old(self).sessions@.remove(i)
                } else {
                    &&& r is Some
                    &&& old(self).same_sessions(*final(self))
                    &&& r->0.account_id == old(self).sessions@[i].account_id
                    &&& r->0.scopes@ == scopes_for(
                        old(self).scopes@,
                        old(self).sessions@[i].account_id,
                    )
                },
            old(self).same_accounts(*final(self)),
            old(self).same_scopes(*final(self)),
            old(self).same_credentials(*final(self)),
            old(self).same_email_intents(*final(self)),
            old(self).same_reset_intents(*final(self)),
    {
        let n = self.sessions.len();
        let mut k: usize = 0;
        while k < n
            invariant
                old(self).wf(),
                *self == *old(self),
                n == self.sessions@.len(),
                k <= n,
                forall|i: int| 0 <= i < k ==> self.sessions@[i].token@ != token@,
            decreases n - k,
        {
            if str_eq_string(token, &self.sessions[k].token) {
                let account_id = self.sessions[k].account_id;
                if self.sessions[k].expires_at < now {
                    self.sessions.remove(k);
                    proof {
                        let pre = old(self).sessions@;
                        let post = self.sessions@;
                        assert forall|x: int, y: int| 0 <= x < y < post.len() implies post[x].token@
                            != post[y].token@ by {
                            assert(post[x] == if x < k {
                                pre[x]
                            } else {
                                pre[x + 1]
                            });
                            assert(post[y] == if y < k {
                                pre[y]
                            } else {
                                pre[y + 1]
                            });
                        }
                    }
                    return None;
                } else {
                    let scopes = self.scopes_of_account(account_id);
                    return Some(Identity { account_id, scopes });
                }
            }
            k += 1;
        }
        None
    }
}

} // verus!
