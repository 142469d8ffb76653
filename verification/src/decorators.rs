//! The two concurrency decorators. Each is itself a valid implementation of
//! the storage contract, so they compose transparently with callers.
//!
//! The shared-ownership decorator adds no synchronization: it relies on a
//! backend that already multiplexes concurrent operations internally, and
//! passes every call and every error through unchanged. The exclusive-lock
//! decorator stands for a backend with no native concurrency guarantee: all
//! operations go through one mutual-exclusion boundary, and once a holder has
//! failed irrecoverably mid-operation the protected state is corrupted, so
//! every later operation is refused with the lock-corruption error instead of
//! touching a possibly inconsistent connection.

use crate::error::Error;
use crate::store::DBConnection;
use crate::user::{Rec, User};
use vstd::prelude::*;

verus! {

/// The shared-ownership decorator: a pass-through wrapper around a backend
/// that is internally safe for concurrent owners.
pub struct Shared<C: DBConnection> {
    inner: C,
}

impl<C: DBConnection> Shared<C> {
    /// Wrap a backend; the visible table is the backend's own.
    pub fn new(inner: C) -> (s: Shared<C>)
        requires
            inner.inv(),
        ensures
            s.inv(),
            s.users() == inner.users(),
    {
        Shared { inner }
    }
}

impl<C: DBConnection> DBConnection for Shared<C> {
    closed spec fn users(&self) -> Map<u128, Rec> {
        self.inner.users()
    }

    closed spec fn inv(&self) -> bool {
        self.inner.inv()
    }

    proof fn inv_unique_emails(&self) {
        self.inner.inv_unique_emails();
    }

    fn init(&mut self) -> (r: Result<(), Error>) {
        self.inner.init()
    }

    fn create_user(&mut self, id: u128, email: &str, hash: &str, is_admin: bool) -> (r: Result<
        (),
        Error,
    >) {
        self.inner.create_user(id, email, hash, is_admin)
    }

    fn update_user(&mut self, user: &User) -> (r: Result<(), Error>) {
        self.inner.update_user(user)
    }

    fn delete_user_by_id(&mut self, user_id: u128) -> (r: Result<(), Error>) {
        self.inner.delete_user_by_id(user_id)
    }

    fn delete_user_by_email(&mut self, email: &str) -> (r: Result<(), Error>) {
        self.inner.delete_user_by_email(email)
    }

    fn get_user_by_id(&self, user_id: u128) -> (r: Result<User, Error>) {
        self.inner.get_user_by_id(user_id)
    }

    fn get_user_by_email(&self, email: &str) -> (r: Result<User, Error>) {
        self.inner.get_user_by_email(email)
    }
}

/// The exclusive-lock decorator: serializes every operation through one
/// mutual-exclusion boundary and refuses all access once the protected state
/// has been corrupted by a holder that failed mid-operation.
pub struct Locked<C: DBConnection> {
    inner: C,
    corrupted: bool,
}

impl<C: DBConnection> Locked<C> {
    /// Wrap a backend behind a fresh, uncorrupted lock.
    pub fn new(inner: C) -> (s: Locked<C>)
        requires
            inner.inv(),
        ensures
            s.inv(),
            s.users() == inner.users(),
            !s.is_corrupted(),
    {
        Locked { inner, corrupted: false }
    }

    /// The protected state was left unusable by a failed holder.
    pub closed spec fn is_corrupted(&self) -> bool {
        self.corrupted
    }

    /// Record that a holder failed irrecoverably mid-operation; every later
    /// operation is refused with the lock-corruption error.
    pub fn mark_corrupted(&mut self)
        requires
            old(self).inv(),
        ensures
            final(self).inv(),
            final(self).is_corrupted(),
            final(self).users() == old(self).users(),
    {
        self.corrupted = true;
    }
}

impl<C: DBConnection> DBConnection for Locked<C> {
    closed spec fn users(&self) -> Map<u128, Rec> {
        self.inner.users()
    }

    closed spec fn inv(&self) -> bool {
        self.inner.inv()
    }

    proof fn inv_unique_emails(&self) {
        self.inner.inv_unique_emails();
    }

    fn init(&mut self) -> (r: Result<(), Error>)
        ensures
            old(self).is_corrupted() ==> r == Err::<(), Error>(Error::MutexPoisonError),
    {
        if self.corrupted {
            Err(Error::MutexPoisonError)
        } else {
            self.inner.init()
        }
    }

    fn create_user(&mut self, id: u128, email: &str, hash: &str, is_admin: bool) -> (r: Result<
        (),
        Error,
    >)
        ensures
            old(self).is_corrupted() ==> r == Err::<(), Error>(Error::MutexPoisonError),
    {
        if self.corrupted {
            Err(Error::MutexPoisonError)
        } else {
            self.inner.create_user(id, email, hash, is_admin)
        }
    }

    fn update_user(&mut self, user: &User) -> (r: Result<(), Error>)
        ensures
            old(self).is_corrupted() ==> r == Err::<(), Error>(Error::MutexPoisonError),
    {
        if self.corrupted {
            Err(Error::MutexPoisonError)
        } else {
            self.inner.update_user(user)
        }
    }

    fn delete_user_by_id(&mut self, user_id: u128) -> (r: Result<(), Error>)
        ensures
            old(self).is_corrupted() ==> r == Err::<(), Error>(Error::MutexPoisonError),
    {
        if self.corrupted {
            Err(Error::MutexPoisonError)
        } else {
            self.inner.delete_user_by_id(user_id)
        }
    }

    fn delete_user_by_email(&mut self, email: &str) -> (r: Result<(), Error>)
        ensures
            old(self).is_corrupted() ==> r == Err::<(), Error>(Error::MutexPoisonError),
    {
        if self.corrupted {
            Err(Error::MutexPoisonError)
        } else {
            self.inner.delete_user_by_email(email)
        }
    }

    fn get_user_by_id(&self, user_id: u128) -> (r: Result<User, Error>)
        ensures
            self.is_corrupted() ==> r == Err::<User, Error>(Error::MutexPoisonError),
    {
        if self.corrupted {
            Err(Error::MutexPoisonError)
        } else {
            self.inner.get_user_by_id(user_id)
        }
    }

    fn get_user_by_email(&self, email: &str) -> (r: Result<User, Error>)
        ensures
            self.is_corrupted() ==> r == Err::<User, Error>(Error::MutexPoisonError),
    {
        if self.corrupted {
            Err(Error::MutexPoisonError)
        } else {
            self.inner.get_user_by_email(email)
        }
    }
}

} // verus!
