use vstd::prelude::*;

use crate::credential::credential_matches;
use crate::crypto::argon2_phc_of;
use crate::store::{has_email_intent, has_reset_token, has_session_token, Auth, PasswordLogin};

verus! {

/// In a well-formed store an account never holds two password
/// credential rows: any two rows for one account are the same row.
/// Every operation of the store promises well-formedness back, so this
/// holds before and after any sequence of calls.
pub proof fn lemma_at_most_one_credential(auth: Auth, account_id: u128, i: int, j: int)
    requires
        auth.wf(),
        0 <= i < auth.password_logins@.len(),
        0 <= j < auth.password_logins@.len(),
        auth.password_logins@[i].account_id == account_id,
        auth.password_logins@[j].account_id == account_id,
    ensures
        i == j,
{
}

/// Once an expired session is removed — the way `fetch_account`
/// removes it on first sight — its token is not stored at all, so a
/// later `fetch_account` with the same token reports "unauthenticated"
/// and changes nothing: the removal is observable exactly once.
pub proof fn lemma_expired_session_removed(pre: Auth, post: Auth, token: Seq<char>, i: int)
    requires
        pre.wf(),
        0 <= i < pre.sessions@.len(),
        pre.sessions@[i].token@ == token,
        post.sessions@ == pre.sessions@.remove(i),
    ensures
        !has_session_token(post.sessions@, token),
{
    let out = post.sessions@;
    assert forall|k: int| 0 <= k < out.len() implies out[k].token@ != token by {
        assert(out[k] == if k < i {
            pre.sessions@[k]
        } else {
            pre.sessions@[k + 1]
        });
    }
}

/// A freshly minted session is stored under its token and under no
/// other row: the way `create_session` appends it. With
/// `fetch_account`'s contract this is the accepting direction of
/// session resolution: an issued token resolves to its account until
/// its expiry has passed.
pub proof fn lemma_issued_token_is_stored(pre: Auth, post: Auth, token: Seq<char>, i: int)
    requires
        post.wf(),
        post.sessions@.len() == pre.sessions@.len() + 1,
        post.sessions@.drop_last() == pre.sessions@,
        post.sessions@.last().token@ == token,
        0 <= i < post.sessions@.len(),
        post.sessions@[i].token@ == token,
    ensures
        has_session_token(post.sessions@, token),
        i == post.sessions@.len() - 1,
        post.sessions@[i] == post.sessions@.last(),
{
    assert(post.sessions@[post.sessions@.len() - 1].token@ == token);
}

/// A consumed email login intent is gone: removing the one row that
/// carried the identifier leaves no row carrying it, so a second call
/// with the same intent identifier can only answer "unknown intent".
pub proof fn lemma_email_intent_single_use(pre: Auth, post: Auth, intent_id: u128, i: int)
    requires
        pre.wf(),
        0 <= i < pre.email_login_intents@.len(),
        pre.email_login_intents@[i].id == intent_id,
        post.email_login_intents@ == pre.email_login_intents@.remove(i),
    ensures
        !has_email_intent(post.email_login_intents@, intent_id),
{
    let out = post.email_login_intents@;
    assert forall|k: int| 0 <= k < out.len() implies out[k].id != intent_id by {
        assert(out[k] == if k < i {
            pre.email_login_intents@[k]
        } else {
            pre.email_login_intents@[k + 1]
        });
    }
}

/// A presented password-reset token is gone after the one call that
/// found it, whatever that call went on to answer: removing the one
/// row that carried the token leaves no row carrying it, so a second
/// call with the same token can only answer "unknown token".
pub proof fn lemma_reset_token_single_use(pre: Auth, post: Auth, token: Seq<char>, i: int)
    requires
        pre.wf(),
        0 <= i < pre.new_pass_login_intents@.len(),
        pre.new_pass_login_intents@[i].id@ == token,
        post.new_pass_login_intents@ == pre.new_pass_login_intents@.remove(i),
    ensures
        !has_reset_token(post.new_pass_login_intents@, token),
{
    let out = post.new_pass_login_intents@;
    assert forall|k: int| 0 <= k < out.len() implies out[k].id@ != token by {
        assert(out[k] == if k < i {
            pre.new_pass_login_intents@[k]
        } else {
            pre.new_pass_login_intents@[k + 1]
        });
    }
}

/// A credential written for one password accepts that password, and in
/// a well-formed store it is the account's only credential row: after
/// `set_password(a, p)`, a `verify_password(a, p)` reports a match —
/// and one is owed, since the stored salt accepts every password
/// within the size bound.
pub proof fn lemma_set_then_verify_accepts(post: Auth, account_id: u128, password: Seq<char>, i: int)
    requires
        post.wf(),
        post.password_logins@.len() >= 1,
        post.password_logins@.last().account_id == account_id,
        credential_matches(post.password_logins@.last(), password),
        0 <= i < post.password_logins@.len(),
        post.password_logins@[i].account_id == account_id,
    ensures
        credential_matches(post.password_logins@[i], password),
{
    lemma_at_most_one_credential(post, account_id, i, post.password_logins@.len() - 1);
}

/// A credential written for one password rejects every password whose
/// hash under the stored salt differs. The hashing backend promises
/// determinism and nothing further, so two passwords whose hashes
/// coincide under one salt are not told apart.
pub proof fn lemma_verify_rejects_other(c: PasswordLogin, set_with: Seq<char>, presented: Seq<char>)
    requires
        credential_matches(c, set_with),
        argon2_phc_of(presented, c.salt@) != argon2_phc_of(set_with, c.salt@),
    ensures
        !credential_matches(c, presented),
{
}

} // verus!
