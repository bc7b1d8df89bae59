use vstd::prelude::*;

use crate::models::ScopeKind;

verus! {

/// How long an email login or password-reset intent stays presentable:
/// a five-minute human retry budget plus one minute of clock slack.
pub const INTENT_DURATION_SECS: i64 = 360;

/// How long a session token stays valid: one week.
pub const SESSION_DURATION_SECS: i64 = 604800;

/// Length in characters of an emailed one-time passcode.
pub const INTENT_CODE_LEN: usize = 6;

/// Length in characters of a session token.
pub const SESSION_TOKEN_LEN: usize = 128;

/// Length in characters of a password-reset token.
pub const NEW_PASS_TOKEN_LEN: usize = 64;

/// A durable identity anchor: one row per registered email.
pub struct Account {
    /// Opaque 128-bit account identifier.
    pub id: u128,
    /// The account's email, unique across accounts, case-sensitive as stored.
    pub email: String,
}

/// An authorization tag attached to an account; an account may hold many.
pub struct Scope {
    pub account_id: u128,
    pub scope: ScopeKind,
}

/// An ephemeral one-time-passcode challenge. The identifier is the
/// bearer reference handed back to the caller; the passcode itself only
/// ever travels over the out-of-band mail channel.
pub struct EmailLoginIntent {
    pub id: u128,
    pub account_id: u128,
    pub pass_key: String,
    /// Unix time after which the intent may no longer be consumed.
    pub expires_at: i64,
}

/// An ephemeral password-reset challenge. Presenting the token is the
/// proof: it doubles as identifier and secret.
pub struct NewPassLoginIntent {
    /// The high-entropy token mailed out-of-band.
    pub id: String,
    pub account_id: u128,
    pub expires_at: i64,
}

/// The single password credential of an account.
pub struct PasswordLogin {
    pub account_id: u128,
    /// The password-hash string produced by the memory-hard hash backend.
    pub hash: String,
    /// The salt the hash was computed with, as stored.
    pub salt: String,
    pub created_at: i64,
}

/// A live authentication: a bearer token resolved on every request.
pub struct Session {
    pub token: String,
    pub account_id: u128,
    /// Whether the session came from a password login rather than a
    /// passcode login, recorded for audit and step-up policy.
    pub password_login: bool,
    pub expires_at: i64,
}

/// An account identity with its authorization scopes, as resolved from
/// a session token.
pub struct Identity {
    pub account_id: u128,
    pub scopes: Vec<ScopeKind>,
}

/// The authentication engine's record store: five record families, each
/// a plain sequence of rows keyed as its well-formedness demands.
pub struct Auth {
    pub accounts: Vec<Account>,
    pub scopes: Vec<Scope>,
    pub password_logins: Vec<PasswordLogin>,
    pub email_login_intents: Vec<EmailLoginIntent>,
    pub new_pass_login_intents: Vec<NewPassLoginIntent>,
    pub sessions: Vec<Session>,
}

/// Some account row carries this email.
pub open spec fn has_account_email(accounts: Seq<Account>, email: Seq<char>) -> bool {
    exists|i: int| 0 <= i < accounts.len() && accounts[i].email@ == email
}

/// Some account row carries this identifier.
pub open spec fn has_account_id(accounts: Seq<Account>, id: u128) -> bool {
    exists|i: int| 0 <= i < accounts.len() && accounts[i].id == id
}

/// Some credential row belongs to this account.
pub open spec fn has_credential(creds: Seq<PasswordLogin>, account_id: u128) -> bool {
    exists|i: int| 0 <= i < creds.len() && creds[i].account_id == account_id
}

/// Some email login intent carries this identifier.
pub open spec fn has_email_intent(intents: Seq<EmailLoginIntent>, id: u128) -> bool {
    exists|i: int| 0 <= i < intents.len() && intents[i].id == id
}

/// Some password-reset intent carries this token.
pub open spec fn has_reset_token(intents: Seq<NewPassLoginIntent>, token: Seq<char>) -> bool {
    exists|i: int| 0 <= i < intents.len() && intents[i].id@ == token
}

/// Some session row carries this token.
pub open spec fn has_session_token(sessions: Seq<Session>, token: Seq<char>) -> bool {
    exists|i: int| 0 <= i < sessions.len() && sessions[i].token@ == token
}

/// The scopes of an account, in store order.
pub open spec fn scopes_for(scopes: Seq<Scope>, account_id: u128) -> Seq<ScopeKind> {
    scopes.filter(|s: Scope| s.account_id == account_id).map_values(|s: Scope| s.scope)
}

/// Some scope row grants this scope to this account.
pub open spec fn has_scope(scopes: Seq<Scope>, account_id: u128, scope: ScopeKind) -> bool {
    exists|i: int|
        0 <= i < scopes.len() && scopes[i].account_id == account_id && scopes[i].scope == scope
}

/// `post` is `pre` with exactly one row appended.
pub open spec fn pushed<A>(pre: Seq<A>, post: Seq<A>) -> bool {
    post.len() == pre.len() + 1 && post.drop_last() == pre
}

/// One scan step of collecting an account's scopes: extending the
/// scanned prefix by one row appends that row's scope exactly when the
/// row belongs to the account.
pub proof fn lemma_scopes_for_step(s: Seq<Scope>, account_id: u128, i: int)
    requires
        0 <= i < s.len(),
    ensures
        scopes_for(s.take(i + 1), account_id) == if s[i].account_id == account_id {
            scopes_for(s.take(i), account_id).push(s[i].scope)
        } else {
            scopes_for(s.take(i), account_id)
        },
{
    reveal(Seq::filter);
    let pred = |r: Scope| r.account_id == account_id;
    assert(s.take(i + 1).drop_last() =~= s.take(i));
    assert(s.take(i + 1).last() == s[i]);
    if s[i].account_id == account_id {
        assert(s.take(i + 1).filter(pred) == s.take(i).filter(pred).push(s[i]));
        assert(s.take(i + 1).filter(pred).map_values(|r: Scope| r.scope) =~= s.take(i).filter(
            pred,
        ).map_values(|r: Scope| r.scope).push(s[i].scope));
    } else {
        assert(s.take(i + 1).filter(pred) == s.take(i).filter(pred));
    }
}

impl Auth {
    /// Well-formedness: every key that the flows look rows up by is
    /// unique within its record family. In particular each account has
    /// at most one password credential.
    pub open spec fn wf(self) -> bool {
        &&& forall|i: int, j: int|
            0 <= i < j < self.accounts@.len() ==> self.accounts@[i].id != self.accounts@[j].id
        &&& forall|i: int, j: int|
            0 <= i < j < self.accounts@.len() ==> self.accounts@[i].email@
                != self.accounts@[j].email@
        &&& forall|i: int, j: int|
            0 <= i < j < self.password_logins@.len() ==> self.password_logins@[i].account_id
                != self.password_logins@[j].account_id
        &&& forall|i: int, j: int|
            0 <= i < j < self.email_login_intents@.len() ==> self.email_login_intents@[i].id
                != self.email_login_intents@[j].id
        &&& forall|i: int, j: int|
            0 <= i < j < self.new_pass_login_intents@.len()
                ==> self.new_pass_login_intents@[i].id@ != self.new_pass_login_intents@[j].id@
        &&& forall|i: int, j: int|
            0 <= i < j < self.sessions@.len() ==> self.sessions@[i].token@
                != self.sessions@[j].token@
    }

    /// The account table is untouched.
    pub open spec fn same_accounts(self, post: Auth) -> bool {
        post.accounts@ == self.accounts@
    }

    /// The scope table is untouched.
    pub open spec fn same_scopes(self, post: Auth) -> bool {
        post.scopes@ == self.scopes@
    }

    /// The credential table is untouched.
    pub open spec fn same_credentials(self, post: Auth) -> bool {
        post.password_logins@ == self.password_logins@
    }

    /// The email login intent table is untouched.
    pub open spec fn same_email_intents(self, post: Auth) -> bool {
        post.email_login_intents@ == self.email_login_intents@
    }

    /// The password-reset intent table is untouched.
    pub open spec fn same_reset_intents(self, post: Auth) -> bool {
        post.new_pass_login_intents@ == self.new_pass_login_intents@
    }

    /// The session table is untouched.
    pub open spec fn same_sessions(self, post: Auth) -> bool {
        post.sessions@ == self.sessions@
    }

    /// No record family changed at all.
    pub open spec fn same_state(self, post: Auth) -> bool {
        &&& self.same_accounts(post)
        &&& self.same_scopes(post)
        &&& self.same_credentials(post)
        &&& self.same_email_intents(post)
        &&& self.same_reset_intents(post)
        &&& self.same_sessions(post)
    }

    /// Grants a scope to an account, as the external provisioning
    /// collaborator does; granting a scope the account already holds
    /// changes nothing.
    pub fn add_scope(&mut self, account_id: u128, scope: ScopeKind)
        requires
            old(self).wf(),
        ensures
            final(self).wf(),
            has_scope(old(self).scopes@, account_id, scope) ==> old(self).same_scopes(
                *final(self),
            ),
            !has_scope(old(self).scopes@, account_id, scope) ==> final(self).scopes@ == old(self).scopes@.push((Scope { account_id, scope })),
            has_scope(final(self).scopes@, account_id, scope),
            old(self).same_accounts(*final(self)),
            old(self).same_credentials(*final(self)),
            old(self).same_email_intents(*final(self)),
            old(self).same_reset_intents(*final(self)),
            old(self).same_sessions(*final(self)),
    {
        let n = self.scopes.len();
        let mut k: usize = 0;
        while k < n
            invariant
                old(self).wf(),
                *self == *old(self),
                n == self.scopes@.len(),
                k <= n,
                forall|i: int|
                    0 <= i < k ==> !(self.scopes@[i].account_id == account_id
                        && self.scopes@[i].scope == scope),
            decreases n - k,
        {
            if self.scopes[k].account_id == account_id && self.scopes[k].scope == scope {
                return ;
            }
            k += 1;
        }
        self.scopes.push(Scope { account_id, scope });
        proof {
            assert(self.scopes@[self.scopes@.len() - 1] == (Scope { account_id, scope }));
        }
    }

    /// An empty store.
    pub fn new() -> (auth: Auth)
        ensures
            auth.wf(),
            auth.accounts@.len() == 0,
            auth.scopes@.len() == 0,
            auth.password_logins@.len() == 0,
            auth.email_login_intents@.len() == 0,
            auth.new_pass_login_intents@.len() == 0,
            auth.sessions@.len() == 0,
    {
        Auth {
            accounts: Vec::new(),
            scopes: Vec::new(),
            password_logins: Vec::new(),
            email_login_intents: Vec::new(),
            new_pass_login_intents: Vec::new(),
            sessions: Vec::new(),
        }
    }
}

/// Adds `dur` to `now`, stopping at the largest representable time
/// rather than wrapping.
pub open spec fn sat_add_time(now: i64, dur: i64) -> i64
    recommends
        dur >= 0,
{
    if now + dur > i64::MAX {
        i64::MAX
    } else {
        (now + dur) as i64
    }
}

/// Expiry timestamp for a record created at `now` that lives `dur` seconds.
pub fn expiry_at(now: i64, dur: i64) -> (t: i64)
    requires
        dur >= 0,
    ensures
        t == sat_add_time(now, dur),
{
    if now > i64::MAX - dur {
        i64::MAX
    } else {
        now + dur
    }
}

} // verus!
