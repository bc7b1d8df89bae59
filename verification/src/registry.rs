use vstd::prelude::*;

use crate::crypto::str_eq_string;
use crate::errors::AuthError;
use crate::ids::fresh_uuid;
use crate::store::{has_account_email, has_account_id, pushed, Account, Auth};

verus! {

impl Auth {
    /// Exact-match account lookup by email. No side effects.
    pub fn get_account(&self, email: &str) -> (r: Option<u128>)
        ensures
            match r {
                Some(id) => exists|i: int|
                    0 <= i < self.accounts@.len() && self.accounts@[i].email@ == email@
                        && self.accounts@[i].id == id,
                None => !has_account_email(self.accounts@, email@),
            },
    {
        let n = self.accounts.len();
        let mut k: usize = 0;
        while k < n
            invariant
                n == self.accounts@.len(),
                k <= n,
                forall|i: int| 0 <= i < k ==> self.accounts@[i].email@ != email@,
            decreases n - k,
        {
            if str_eq_string(email, &self.accounts[k].email) {
                return Some(self.accounts[k].id);
            }
            k += 1;
        }
        None
    }

    /// Inserts an account row under a caller-supplied identifier.
    /// Success is owed exactly where neither the email nor the
    /// identifier is already taken; a taken email wins the error report.
    pub fn insert_account(&mut self, id: u128, email: &str) -> (r: Result<(), AuthError>)
        requires
            old(self).wf(),
        ensures
            final(self).wf(),
            r is Ok <==> !has_account_email(old(self).accounts@, email@) && !has_account_id(
                old(self).accounts@,
                id,
            ),
            has_account_email(old(self).accounts@, email@) ==> r == Err::<(), AuthError>(
                AuthError::DuplicateEmail,
            ),
            !has_account_email(old(self).accounts@, email@) && has_account_id(
                old(self).accounts@,
                id,
            ) ==> r == Err::<(), AuthError>(AuthError::StorageConflict),
            r is Err ==> old(self).same_state(*final(self)),
            r is Ok ==> {
                &&& pushed(old(self).accounts@, final(self).accounts@)
                &&& final(self).accounts@.last().id == id
                &&& final(self).accounts@.last().email@ == email@
            },
            old(self).same_scopes(*final(self)),
            old(self).same_credentials(*final(self)),
            old(self).same_email_intents(*final(self)),
            old(self).same_reset_intents(*final(self)),
            old(self).same_sessions(*final(self)),
    {
        let n = self.accounts.len();
        let mut k: usize = 0;
        while k < n
            invariant
                old(self).wf(),
                *self == *old(self),
                n == self.accounts@.len(),
                k <= n,
                forall|i: int| 0 <= i < k ==> self.accounts@[i].email@ != email@,
            decreases n - k,
        {
            if str_eq_string(email, &self.accounts[k].email) {
                return Err(AuthError::DuplicateEmail);
            }
            k += 1;
        }
        k = 0;
        while k < n
            invariant
                old(self).wf(),
                *self == *old(self),
                n == self.accounts@.len(),
                k <= n,
                forall|i: int| 0 <= i < n ==> self.accounts@[i].email@ != email@,
                forall|i: int| 0 <= i < k ==> self.accounts@[i].id != id,
            decreases n - k,
        {
            if self.accounts[k].id == id {
                return Err(AuthError::StorageConflict);
            }
            k += 1;
        }
        let row = Account { id, email: email.to_owned() };
        proof {
            assert(forall|i: int|
                0 <= i < self.accounts@.len() ==> self.accounts@[i].email@ != email@);
        }
        self.accounts.push(row);
        proof {
            assert(self.accounts@.drop_last() =~= old(self).accounts@);
        }
        Ok(())
    }

    /// Registers a brand-new account under a freshly drawn identifier.
    /// A taken email is always refused; a fresh email succeeds unless
    /// the drawn identifier collides with a stored one.
    pub fn create_account(&mut self, email: &str) -> (r: Result<u128, AuthError>)
        requires
            old(self).wf(),
        ensures
            final(self).wf(),
            r == Err::<u128, AuthError>(AuthError::DuplicateEmail) <==> has_account_email(
                old(self).accounts@,
                email@,
            ),
            r is Err ==> old(self).same_state(*final(self)) && (r->Err_0
                == AuthError::DuplicateEmail || r->Err_0 == AuthError::StorageConflict),
            r is Err && r->Err_0 == AuthError::StorageConflict ==> !has_account_email(
                old(self).accounts@,
                email@,
            ),
            r is Ok ==> {
                &&& !has_account_email(old(self).accounts@, email@)
                &&& !has_account_id(old(self).accounts@, r->Ok_0)
                &&& pushed(old(self).accounts@, final(self).accounts@)
                &&& final(self).accounts@.last().id == r->Ok_0
                &&& final(self).accounts@.last().email@ == email@
            },
            old(self).same_scopes(*final(self)),
            old(self).same_credentials(*final(self)),
            old(self).same_email_intents(*final(self)),
            old(self).same_reset_intents(*final(self)),
            old(self).same_sessions(*final(self)),
    {
        let id = fresh_uuid();
        match self.insert_account(id, email) {
            Ok(()) => Ok(id),
            Err(e) => Err(e),
        }
    }

    /// Looks the email up and registers it on a miss, handing back the
    /// account identifier either way.
    pub fn get_or_create_account(&mut self, email: &str) -> (r: Result<u128, AuthError>)
        requires
            old(self).wf(),
        ensures
            final(self).wf(),
            forall|i: int|
                #![trigger old(self).accounts@[i]]
                0 <= i < old(self).accounts@.len() && old(self).accounts@[i].email@ == email@
                    ==> r == Ok::<u128, AuthError>(old(self).accounts@[i].id) && old(
                    self,
                ).same_accounts(*final(self)),
            !has_account_email(old(self).accounts@, email@) ==> match r {
                Ok(id) => {
                    &&& !has_account_id(old(self).accounts@, id)
                    &&& pushed(old(self).accounts@, final(self).accounts@)
                    &&& final(self).accounts@.last().id == id
                    &&& final(self).accounts@.last().email@ == email@
                },
                Err(e) => e == AuthError::StorageConflict && old(self).same_state(*final(self)),
            },
            r is Err ==> old(self).same_state(*final(self)),
            old(self).same_scopes(*final(self)),
            old(self).same_credentials(*final(self)),
            old(self).same_email_intents(*final(self)),
            old(self).same_reset_intents(*final(self)),
            old(self).same_sessions(*final(self)),
    {
        match self.get_account(email) {
            Some(id) => Ok(id),
            None => {
                let id = fresh_uuid();
                match self.insert_account(id, email) {
                    Ok(()) => Ok(id),
                    Err(e) => Err(e),
                }
            },
        }
    }
}

} // verus!
