use vstd::prelude::*;

use crate::store::{Auth, EmailLoginIntent, NewPassLoginIntent, Session};

verus! {

/// The email login intents that survive a sweep at `now`: exactly the
/// rows whose expiry has not yet passed, in store order.
pub open spec fn live_email_intents(s: Seq<EmailLoginIntent>, now: i64) -> Seq<EmailLoginIntent> {
    s.filter(|r: EmailLoginIntent| r.expires_at >= now)
}

/// The password-reset intents that survive a sweep at `now`.
pub open spec fn live_reset_intents(
    s: Seq<NewPassLoginIntent>,
    now: i64,
) -> Seq<NewPassLoginIntent> {
    s.filter(|r: NewPassLoginIntent| r.expires_at >= now)
}

/// The sessions that survive a sweep at `now`.
pub open spec fn live_sessions(s: Seq<Session>, now: i64) -> Seq<Session> {
    s.filter(|r: Session| r.expires_at >= now)
}

proof fn lemma_live_email_intents_step(s: Seq<EmailLoginIntent>, now: i64, i: int)
    requires
        0 <= i < s.len(),
    ensures
        live_email_intents(s.take(i + 1), now) == if s[i].expires_at >= now {
            live_email_intents(s.take(i), now).push(s[i])
        } else {
            live_email_intents(s.take(i), now)
        },
{
    reveal(Seq::filter);
    assert(s.take(i + 1).drop_last() =~= s.take(i));
    assert(s.take(i + 1).last() == s[i]);
}

proof fn lemma_live_reset_intents_step(s: Seq<NewPassLoginIntent>, now: i64, i: int)
    requires
        0 <= i < s.len(),
    ensures
        live_reset_intents(s.take(i + 1), now) == if s[i].expires_at >= now {
            live_reset_intents(s.take(i), now).push(s[i])
        } else {
            live_reset_intents(s.take(i), now)
        },
{
    reveal(Seq::filter);
    assert(s.take(i + 1).drop_last() =~= s.take(i));
    assert(s.take(i + 1).last() == s[i]);
}

proof fn lemma_live_sessions_step(s: Seq<Session>, now: i64, i: int)
    requires
        0 <= i < s.len(),
    ensures
        live_sessions(s.take(i + 1), now) == if s[i].expires_at >= now {
            live_sessions(s.take(i), now).push(s[i])
        } else {
            live_sessions(s.take(i), now)
        },
{
    reveal(Seq::filter);
    assert(s.take(i + 1).drop_last() =~= s.take(i));
    assert(s.take(i + 1).last() == s[i]);
}

/// A sweep only keeps rows that were already stored, so pairwise
/// distinct intent identifiers stay pairwise distinct.
proof fn lemma_live_email_intents_distinct(s: Seq<EmailLoginIntent>, now: i64)
    requires
        forall|i: int, j: int| 0 <= i < j < s.len() ==> s[i].id != s[j].id,
    ensures
        forall|k: int|
            #![trigger live_email_intents(s, now)[k]]
            0 <= k < live_email_intents(s, now).len() ==> exists|m: int| #![trigger s[m]]
                0 <= m < s.len() && live_email_intents(s, now)[k] == s[m],
        forall|i: int, j: int|
            0 <= i < j < live_email_intents(s, now).len() ==> live_email_intents(s, now)[i].id
                != live_email_intents(s, now)[j].id,
    decreases s.len(),
{
    reveal(Seq::filter);
    if s.len() == 0 {
    } else {
        let d = s.drop_last();
        lemma_live_email_intents_distinct(d, now);
        let out = live_email_intents(s, now);
        let sub = live_email_intents(d, now);
        assert(s.drop_last() == d);
        assert forall|k: int| #![trigger out[k]] 0 <= k < out.len() implies exists|m: int| #![trigger s[m]]
            0 <= m < s.len() && out[k] == s[m] by {
            if k < sub.len() {
                assert(out[k] == sub[k]);
                let m = choose|m: int| 0 <= m < d.len() && sub[k] == d[m];
                assert(out[k] == s[m]);
            } else {
                assert(out[k] == s[s.len() - 1]);
            }
        }
        assert forall|i: int, j: int| 0 <= i < j < out.len() implies out[i].id != out[j].id by {
            if j < sub.len() {
                assert(out[i] == sub[i] && out[j] == sub[j]);
            } else {
                assert(out[i] == sub[i]);
                let m = choose|m: int| 0 <= m < d.len() && sub[i] == d[m];
                assert(out[j] == s[s.len() - 1]);
                assert(s[m].id != s[s.len() - 1].id);
            }
        }
    }
}

/// A sweep only keeps rows that were already stored, so pairwise
/// distinct reset tokens stay pairwise distinct.
proof fn lemma_live_reset_intents_distinct(s: Seq<NewPassLoginIntent>, now: i64)
    requires
        forall|i: int, j: int| 0 <= i < j < s.len() ==> s[i].id@ != s[j].id@,
    ensures
        forall|k: int|
            #![trigger live_reset_intents(s, now)[k]]
            0 <= k < live_reset_intents(s, now).len() ==> exists|m: int| #![trigger s[m]]
                0 <= m < s.len() && live_reset_intents(s, now)[k] == s[m],
        forall|i: int, j: int|
            0 <= i < j < live_reset_intents(s, now).len() ==> live_reset_intents(s, now)[i].id@
                != live_reset_intents(s, now)[j].id@,
    decreases s.len(),
{
    reveal(Seq::filter);
    if s.len() == 0 {
    } else {
        let d = s.drop_last();
        lemma_live_reset_intents_distinct(d, now);
        let out = live_reset_intents(s, now);
        let sub = live_reset_intents(d, now);
        assert(s.drop_last() == d);
        assert forall|k: int| #![trigger out[k]] 0 <= k < out.len() implies exists|m: int| #![trigger s[m]]
            0 <= m < s.len() && out[k] == s[m] by {
            if k < sub.len() {
                assert(out[k] == sub[k]);
                let m = choose|m: int| 0 <= m < d.len() && sub[k] == d[m];
                assert(out[k] == s[m]);
            } else {
                assert(out[k] == s[s.len() - 1]);
            }
        }
        assert forall|i: int, j: int| 0 <= i < j < out.len() implies out[i].id@ != out[j].id@ by {
            if j < sub.len() {
                assert(out[i] == sub[i] && out[j] == sub[j]);
            } else {
                assert(out[i] == sub[i]);
                let m = choose|m: int| 0 <= m < d.len() && sub[i] == d[m];
                assert(out[j] == s[s.len() - 1]);
                assert(s[m].id@ != s[s.len() - 1].id@);
            }
        }
    }
}

/// A sweep only keeps rows that were already stored, so pairwise
/// distinct session tokens stay pairwise distinct.
proof fn lemma_live_sessions_distinct(s: Seq<Session>, now: i64)
    requires
        forall|i: int, j: int| 0 <= i < j < s.len() ==> s[i].token@ != s[j].token@,
    ensures
        forall|k: int|
            #![trigger live_sessions(s, now)[k]]
            0 <= k < live_sessions(s, now).len() ==> exists|m: int| #![trigger s[m]]
                0 <= m < s.len() && live_sessions(s, now)[k] == s[m],
        forall|i: int, j: int|
            0 <= i < j < live_sessions(s, now).len() ==> live_sessions(s, now)[i].token@
                != live_sessions(s, now)[j].token@,
    decreases s.len(),
{
    reveal(Seq::filter);
    if s.len() == 0 {
    } else {
        let d = s.drop_last();
        lemma_live_sessions_distinct(d, now);
        let out = live_sessions(s, now);
        let sub = live_sessions(d, now);
        assert(s.drop_last() == d);
        assert forall|k: int| #![trigger out[k]] 0 <= k < out.len() implies exists|m: int| #![trigger s[m]]
            0 <= m < s.len() && out[k] == s[m] by {
            if k < sub.len() {
                assert(out[k] == sub[k]);
                let m = choose|m: int| 0 <= m < d.len() && sub[k] == d[m];
                assert(out[k] == s[m]);
            } else {
                assert(out[k] == s[s.len() - 1]);
            }
        }
        assert forall|i: int, j: int| 0 <= i < j < out.len() implies out[i].token@
            != out[j].token@ by {
            if j < sub.len() {
                assert(out[i] == sub[i] && out[j] == sub[j]);
            } else {
                assert(out[i] == sub[i]);
                let m = choose|m: int| 0 <= m < d.len() && sub[i] == d[m];
                assert(out[j] == s[s.len() - 1]);
                assert(s[m].token@ != s[s.len() - 1].token@);
            }
        }
    }
}

/// Sweeping is idempotent: the rows that survive one pass all survive
/// a second pass at the same cutoff, so by `sweep`'s contract a second
/// call changes nothing.
pub proof fn lemma_sweep_idempotent_email_intents(s: Seq<EmailLoginIntent>, now: i64)
    ensures
        live_email_intents(live_email_intents(s, now), now) == live_email_intents(s, now),
    decreases s.len(),
{
    reveal(Seq::filter);
    if s.len() > 0 {
        let d = s.drop_last();
        lemma_sweep_idempotent_email_intents(d, now);
        if s.last().expires_at >= now {
            assert(live_email_intents(s, now).drop_last() =~= live_email_intents(d, now));
            assert(live_email_intents(s, now).last() == s.last());
        }
    }
}

/// Sweeping is idempotent for the password-reset intents as well.
pub proof fn lemma_sweep_idempotent_reset_intents(s: Seq<NewPassLoginIntent>, now: i64)
    ensures
        live_reset_intents(live_reset_intents(s, now), now) == live_reset_intents(s, now),
    decreases s.len(),
{
    reveal(Seq::filter);
    if s.len() > 0 {
        let d = s.drop_last();
        lemma_sweep_idempotent_reset_intents(d, now);
        if s.last().expires_at >= now {
            assert(live_reset_intents(s, now).drop_last() =~= live_reset_intents(d, now));
            assert(live_reset_intents(s, now).last() == s.last());
        }
    }
}

/// Sweeping is idempotent for the sessions as well.
pub proof fn lemma_sweep_idempotent_sessions(s: Seq<Session>, now: i64)
    ensures
        live_sessions(live_sessions(s, now), now) == live_sessions(s, now),
    decreases s.len(),
{
    reveal(Seq::filter);
    if s.len() > 0 {
        let d = s.drop_last();
        lemma_sweep_idempotent_sessions(d, now);
        if s.last().expires_at >= now {
            assert(live_sessions(s, now).drop_last() =~= live_sessions(d, now));
            assert(live_sessions(s, now).last() == s.last());
        }
    }
}

fn retain_live_email_intents(v: &mut Vec<EmailLoginIntent>, now: i64)
    ensures
        final(v)@ == live_email_intents(old(v)@, now),
{
    let orig_len: usize = v.len();
    let mut src: Vec<EmailLoginIntent> = Vec::new();
    core::mem::swap(v, &mut src);
    let mut i: usize = 0;
    proof {
        assert(old(v)@.take(0) =~= Seq::<EmailLoginIntent>::empty());
        reveal(Seq::filter);
    }
    while src.len() > 0
        invariant
            orig_len == old(v)@.len(),
            i + src@.len() == old(v)@.len(),
            src@ == old(v)@.skip(i as int),
            v@ == live_email_intents(old(v)@.take(i as int), now),
        decreases src@.len(),
    {
        let row = src.remove(0);
        proof {
            assert(row == old(v)@[i as int]);
            lemma_live_email_intents_step(old(v)@, now, i as int);
            assert(src@ =~= old(v)@.skip(i as int + 1));
        }
        if row.expires_at >= now {
            v.push(row);
        }
        i += 1;
    }
    proof {
        assert(old(v)@.take(old(v)@.len() as int) =~= old(v)@);
    }
}

fn retain_live_reset_intents(v: &mut Vec<NewPassLoginIntent>, now: i64)
    ensures
        final(v)@ == live_reset_intents(old(v)@, now),
{
    let orig_len: usize = v.len();
    let mut src: Vec<NewPassLoginIntent> = Vec::new();
    core::mem::swap(v, &mut src);
    let mut i: usize = 0;
    proof {
        assert(old(v)@.take(0) =~= Seq::<NewPassLoginIntent>::empty());
        reveal(Seq::filter);
    }
    while src.len() > 0
        invariant
            orig_len == old(v)@.len(),
            i + src@.len() == old(v)@.len(),
            src@ == old(v)@.skip(i as int),
            v@ == live_reset_intents(old(v)@.take(i as int), now),
        decreases src@.len(),
    {
        let row = src.remove(0);
        proof {
            assert(row == old(v)@[i as int]);
            lemma_live_reset_intents_step(old(v)@, now, i as int);
            assert(src@ =~= old(v)@.skip(i as int + 1));
        }
        if row.expires_at >= now {
            v.push(row);
        }
        i += 1;
    }
    proof {
        assert(old(v)@.take(old(v)@.len() as int) =~= old(v)@);
    }
}

fn retain_live_sessions(v: &mut Vec<Session>, now: i64)
    ensures
        final(v)@ == live_sessions(old(v)@, now),
{
    let orig_len: usize = v.len();
    let mut src: Vec<Session> = Vec::new();
    core::mem::swap(v, &mut src);
    let mut i: usize = 0;
    proof {
        assert(old(v)@.take(0) =~= Seq::<Session>::empty());
        reveal(Seq::filter);
    }
    while src.len() > 0
        invariant
            orig_len == old(v)@.len(),
            i + src@.len() == old(v)@.len(),
            src@ == old(v)@.skip(i as int),
            v@ == live_sessions(old(v)@.take(i as int), now),
        decreases src@.len(),
    {
        let row = src.remove(0);
        proof {
            assert(row == old(v)@[i as int]);
            lemma_live_sessions_step(old(v)@, now, i as int);
            assert(src@ =~= old(v)@.skip(i as int + 1));
        }
        if row.expires_at >= now {
            v.push(row);
        }
        i += 1;
    }
    proof {
        assert(old(v)@.take(old(v)@.len() as int) =~= old(v)@);
    }
}

impl Auth {
    /// One maintenance pass: deletes every email login intent,
    /// password-reset intent and session whose expiry lies strictly in
    /// the past of the single `now` cutoff handed in, and touches
    /// nothing else. Running it twice at one cutoff changes nothing the
    /// second time.
    pub fn sweep(&mut self, now: i64)
        requires
            old(self).wf(),
        ensures
            final(self).wf(),
            final(self).email_login_intents@ == live_email_intents(
                old(self).email_login_intents@,
                now,
            ),
            final(self).new_pass_login_intents@ == live_reset_intents(
                old(self).new_pass_login_intents@,
                now,
            ),
            final(self).sessions@ == live_sessions(old(self).sessions@, now),
            old(self).same_accounts(*final(self)),
            old(self).same_scopes(*final(self)),
            old(self).same_credentials(*final(self)),
    {
        retain_live_reset_intents(&mut self.new_pass_login_intents, now);
        retain_live_email_intents(&mut self.email_login_intents, now);
        retain_live_sessions(&mut self.sessions, now);
        proof {
            lemma_live_email_intents_distinct(old(self).email_login_intents@, now);
            lemma_live_reset_intents_distinct(old(self).new_pass_login_intents@, now);
            lemma_live_sessions_distinct(old(self).sessions@, now);
        }
    }

    /// The exposed maintenance operation: performs one sweep with the
    /// given cutoff.
    pub fn cleanup_db(&mut self, now: i64)
        requires
            old(self).wf(),
        ensures
            final(self).wf(),
            final(self).email_login_intents@ == live_email_intents(
                old(self).email_login_intents@,
                now,
            ),
            final(self).new_pass_login_intents@ == live_reset_intents(
                old(self).new_pass_login_intents@,
                now,
            ),
            final(self).sessions@ == live_sessions(old(self).sessions@, now),
            old(self).same_accounts(*final(self)),
            old(self).same_scopes(*final(self)),
            old(self).same_credentials(*final(self)),
    {
        self.sweep(now);
    }
}

} // verus!
