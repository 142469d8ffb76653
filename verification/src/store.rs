//! The account-storage contract: an abstract table of user records keyed by
//! id with a uniqueness invariant on emails, the transition semantics of each
//! lifecycle operation, a verified in-memory backend, and the two concurrency
//! decorators that adapt backends to one uniform contract.

use crate::error::Error;
use crate::user::{rec_of, Rec, User};
use vstd::prelude::*;

verus! {

/// Some stored record carries this email.
pub open spec fn has_email(m: Map<u128, Rec>, email: Seq<char>) -> bool {
    exists|i: u128| #[trigger] m.contains_key(i) && m[i].email == email
}

/// The id of the record carrying this email.
pub open spec fn email_owner(m: Map<u128, Rec>, email: Seq<char>) -> u128 {
    choose|i: u128| #[trigger] m.contains_key(i) && m[i].email == email
}

/// A record other than `id`'s carries this email.
pub open spec fn has_other_email(m: Map<u128, Rec>, id: u128, email: Seq<char>) -> bool {
    exists|j: u128| #[trigger] m.contains_key(j) && j != id && m[j].email == email
}

/// At most one record per email.
pub open spec fn unique_emails(m: Map<u128, Rec>) -> bool {
    forall|i: u128, j: u128|
        #![trigger m.contains_key(i), m.contains_key(j)]
        m.contains_key(i) && m.contains_key(j) && i != j ==> m[i].email != m[j].email
}

/// An error kind that reports a lower-level infrastructure fault rather than
/// a domain outcome.
pub open spec fn infra_fault(e: Error) -> bool {
    match e {
        Error::SqlxError(_) => true,
        Error::RusqliteError(_) => true,
        Error::IOError(_) => true,
        Error::MutexPoisonError => true,
        _ => false,
    }
}

/// What a create operation does to the table: rejected with a conflict when
/// the email is already present, otherwise the record is added under `id`.
pub open spec fn spec_create(m: Map<u128, Rec>, id: u128, r: Rec) -> (Map<u128, Rec>, Result<
    (),
    Error,
>) {
    if has_email(m, r.email) {
        (m, Err(Error::EmailAlreadyExists))
    } else {
        (m.insert(id, r), Ok(()))
    }
}

/// What an update does to the table: not found without a record under `id`,
/// a conflict when another record carries the new email, otherwise every
/// mutable field of the record under `id` is replaced.
pub open spec fn spec_update(m: Map<u128, Rec>, id: u128, r: Rec) -> (Map<u128, Rec>, Result<
    (),
    Error,
>) {
    if !m.contains_key(id) {
        (m, Err(Error::UserNotFoundError))
    } else if has_other_email(m, id, r.email) {
        (m, Err(Error::EmailAlreadyExists))
    } else {
        (m.insert(id, r), Ok(()))
    }
}

/// What a delete by id does to the table: the record under `id` disappears;
/// with no such record the table is unchanged, a successful no-op.
pub open spec fn spec_delete_id(m: Map<u128, Rec>, id: u128) -> Map<u128, Rec> {
    m.remove(id)
}

/// What a delete by email does to the table: the record carrying the email
/// disappears; with no such record the table is unchanged.
pub open spec fn spec_delete_email(m: Map<u128, Rec>, email: Seq<char>) -> Map<u128, Rec> {
    if has_email(m, email) {
        m.remove(email_owner(m, email))
    } else {
        m
    }
}

/// What a lookup by id returns: the stored record, or not found.
pub open spec fn spec_get(m: Map<u128, Rec>, id: u128) -> Result<Rec, Error> {
    if m.contains_key(id) {
        Ok(m[id])
    } else {
        Err(Error::UserNotFoundError)
    }
}

/// The account-storage contract, independent of backend. An implementation
/// exposes an abstract table of records keyed by id; every operation's
/// observable effect on that table is fixed here, and an implementation may
/// only strengthen it. Backends with lower-level failure modes surface them
/// as infrastructure faults that leave the table unchanged.
pub trait DBConnection: Sized {
    /// The abstract account table.
    spec fn users(&self) -> Map<u128, Rec>;

    /// The backend's internal well-formedness.
    spec fn inv(&self) -> bool;

    /// Every well-formed backend stores at most one record per email.
    proof fn inv_unique_emails(&self)
        requires
            self.inv(),
        ensures
            unique_emails(self.users()),
    ;

    /// Idempotently ensure the backing schema exists: repeated calls neither
    /// error over existing data nor alter it.
    fn init(&mut self) -> (r: Result<(), Error>)
        requires
            old(self).inv(),
        ensures
            final(self).inv(),
            final(self).users() == old(self).users(),
            r matches Err(e) ==> infra_fault(e),
    ;

    /// Insert a new record under a caller-assigned fresh id.
    fn create_user(&mut self, id: u128, email: &str, hash: &str, is_admin: bool) -> (r: Result<
        (),
        Error,
    >)
        requires
            old(self).inv(),
            !old(self).users().contains_key(id),
        ensures
            final(self).inv(),
            match r {
                Ok(()) => !has_email(old(self).users(), email@) && final(self).users() == old(
                    self,
                ).users().insert(id, Rec { email: email@, password: hash@, is_admin }),
                Err(e) => final(self).users() == old(self).users() && ((e
                    == Error::EmailAlreadyExists && has_email(old(self).users(), email@))
                    || infra_fault(e)),
            },
    ;

    /// Replace all mutable fields of the record identified by `user.id`.
    fn update_user(&mut self, user: &User) -> (r: Result<(), Error>)
        requires
            old(self).inv(),
        ensures
            final(self).inv(),
            match r {
                Ok(()) => old(self).users().contains_key(user.id) && final(self).users() == old(
                    self,
                ).users().insert(user.id, rec_of(*user)),
                Err(e) => final(self).users() == old(self).users() && ((e
                    == Error::UserNotFoundError && !old(self).users().contains_key(user.id)) || (e
                    == Error::EmailAlreadyExists && has_other_email(
                    old(self).users(),
                    user.id,
                    user.email@,
                )) || infra_fault(e)),
            },
    ;

    /// Remove at most the record under `id`; a missing record is a
    /// successful no-op.
    fn delete_user_by_id(&mut self, user_id: u128) -> (r: Result<(), Error>)
        requires
            old(self).inv(),
        ensures
            final(self).inv(),
            match r {
                Ok(()) => final(self).users() == spec_delete_id(old(self).users(), user_id),
                Err(e) => final(self).users() == old(self).users() && infra_fault(e),
            },
    ;

    /// Remove at most the record carrying `email`; a missing record is a
    /// successful no-op.
    fn delete_user_by_email(&mut self, email: &str) -> (r: Result<(), Error>)
        requires
            old(self).inv(),
        ensures
            final(self).inv(),
            match r {
                Ok(()) => final(self).users() == spec_delete_email(old(self).users(), email@),
                Err(e) => final(self).users() == old(self).users() && infra_fault(e),
            },
    ;

    /// Return the record under `id`, or report that none exists.
    fn get_user_by_id(&self, user_id: u128) -> (r: Result<User, Error>)
        requires
            self.inv(),
        ensures
            match r {
                Ok(u) => u.id == user_id && self.users().contains_key(user_id) && rec_of(u)
                    == self.users()[user_id],
                Err(e) => (e == Error::UserNotFoundError && !self.users().contains_key(user_id))
                    || infra_fault(e),
            },
    ;

    /// Return the record carrying `email`, or report that none exists.
    fn get_user_by_email(&self, email: &str) -> (r: Result<User, Error>)
        requires
            self.inv(),
        ensures
            match r {
                Ok(u) => u.email@ == email@ && self.users().contains_key(u.id) && rec_of(u)
                    == self.users()[u.id],
                Err(e) => (e == Error::UserNotFoundError && !has_email(self.users(), email@))
                    || infra_fault(e),
            },
    ;
}

} // verus!
