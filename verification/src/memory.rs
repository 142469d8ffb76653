//! A verified in-memory backend: the reference implementation of the
//! account-storage contract, with the exact outcome of every operation.

use crate::error::Error;
use crate::store::{
    email_owner, has_email, has_other_email, spec_create, spec_delete_email, spec_delete_id,
    spec_update, unique_emails, DBConnection,
};
use crate::user::{rec_of, Rec, User};
use vstd::prelude::*;

verus! {

/// Some row holds this id.
pub open spec fn seq_has_id(s: Seq<User>, id: u128) -> bool {
    exists|i: int| 0 <= i < s.len() && s[i].id == id
}

/// The row index holding this id.
pub open spec fn idx_of(s: Seq<User>, id: u128) -> int {
    choose|i: int| 0 <= i < s.len() && s[i].id == id
}

/// The abstract table described by a row sequence.
pub open spec fn map_of(s: Seq<User>) -> Map<u128, Rec> {
    Map::new(|id: u128| seq_has_id(s, id), |id: u128| rec_of(s[idx_of(s, id)]))
}

/// No two rows share an id or an email.
pub open spec fn distinct_users(s: Seq<User>) -> bool {
    forall|i: int, j: int|
        #![trigger s[i], s[j]]
        0 <= i < j < s.len() ==> s[i].id != s[j].id && s[i].email@ != s[j].email@
}

/// How the abstract table reads the rows: membership is holding an id, and
/// with distinct ids each row is the value under its id.
pub proof fn lemma_map_of_props(s: Seq<User>)
    requires
        distinct_users(s),
    ensures
        forall|x: u128| #[trigger] map_of(s).contains_key(x) <==> seq_has_id(s, x),
        forall|i: int|
            0 <= i < s.len() ==> map_of(s).contains_key(#[trigger] s[i].id) && map_of(s)[s[i].id]
                == rec_of(s[i]),
{
    assert forall|i: int| 0 <= i < s.len() implies map_of(s).contains_key(#[trigger] s[i].id)
        && map_of(s)[s[i].id] == rec_of(s[i]) by {
        assert(seq_has_id(s, s[i].id));
        let j = idx_of(s, s[i].id);
        assert(0 <= j < s.len() && s[j].id == s[i].id);
        if i != j {
            assert(s[i].id != s[j].id);
        }
    }
}

/// A table read from rows with distinct emails keeps emails unique.
pub proof fn lemma_unique_emails_of(s: Seq<User>)
    requires
        distinct_users(s),
    ensures
        unique_emails(map_of(s)),
{
    lemma_map_of_props(s);
    assert forall|x: u128, y: u128|
        #![trigger map_of(s).contains_key(x), map_of(s).contains_key(y)]
        map_of(s).contains_key(x) && map_of(s).contains_key(y) && x != y implies map_of(s)[x].email
        != map_of(s)[y].email by {
        let i = idx_of(s, x);
        let j = idx_of(s, y);
        assert(0 <= i < s.len() && s[i].id == x);
        assert(0 <= j < s.len() && s[j].id == y);
        assert(i != j);
        if i < j {
            assert(s[i].email@ != s[j].email@);
        } else {
            assert(s[j].email@ != s[i].email@);
        }
        assert(map_of(s)[x] == rec_of(s[i]));
        assert(map_of(s)[y] == rec_of(s[j]));
    }
}

/// Appending a row with a fresh id inserts its record into the table.
pub proof fn lemma_map_push(s: Seq<User>, u: User)
    requires
        distinct_users(s),
        !seq_has_id(s, u.id),
    ensures
        map_of(s.push(u)) == map_of(s).insert(u.id, rec_of(u)),
{
    let s2 = s.push(u);
    assert(s2.len() == s.len() + 1);
    assert forall|x: u128| #[trigger] seq_has_id(s2, x) implies (seq_has_id(s, x) || x
        == u.id) by {
        let i = choose|i: int| 0 <= i < s2.len() && s2[i].id == x;
        if i < s.len() {
            assert(s[i].id == x);
        } else {
            assert(s2[i] == u);
        }
    }
    assert forall|x: u128| seq_has_id(s, x) implies #[trigger] seq_has_id(s2, x) by {
        let i = choose|i: int| 0 <= i < s.len() && s[i].id == x;
        assert(s2[i].id == x);
    }
    assert(s2[s.len() as int] == u);
    assert(seq_has_id(s2, u.id));
    assert forall|x: u128| #[trigger] seq_has_id(s2, x) implies rec_of(s2[idx_of(s2, x)]) == (if x
        == u.id {
        rec_of(u)
    } else {
        rec_of(s[idx_of(s, x)])
    }) by {
        let i2 = idx_of(s2, x);
        assert(0 <= i2 < s2.len() && s2[i2].id == x);
        if x == u.id {
            if i2 < s.len() {
                assert(s[i2].id == u.id);
                assert(seq_has_id(s, u.id));
            }
            assert(s2[i2] == u);
        } else {
            assert(i2 < s.len());
            assert(s[i2].id == x);
            assert(seq_has_id(s, x));
            let i1 = idx_of(s, x);
            assert(0 <= i1 < s.len() && s[i1].id == x);
            if i1 != i2 {
                assert(s[i1].id != s[i2].id);
            }
            assert(s2[i2] == s[i2]);
        }
    }
    assert(map_of(s2) =~= map_of(s).insert(u.id, rec_of(u)));
}

/// Removing a row deletes its record from the table.
pub proof fn lemma_map_remove(s: Seq<User>, i: int)
    requires
        distinct_users(s),
        0 <= i < s.len(),
    ensures
        map_of(s.remove(i)) == map_of(s).remove(s[i].id),
        distinct_users(s.remove(i)),
        !seq_has_id(s.remove(i), s[i].id),
{
    let s2 = s.remove(i);
    let id = s[i].id;
    assert(s2.len() == s.len() - 1);
    assert forall|x: u128| #[trigger] seq_has_id(s2, x) implies (seq_has_id(s, x) && x != id) by {
        let j = choose|j: int| 0 <= j < s2.len() && s2[j].id == x;
        let j1: int = if j < i {
            j
        } else {
            j + 1
        };
        assert(s[j1].id == x);
        assert(seq_has_id(s, x));
        if j1 != i {
            if j1 < i {
                assert(s[j1].id != s[i].id);
            } else {
                assert(s[i].id != s[j1].id);
            }
        }
    }
    assert forall|x: u128| seq_has_id(s, x) && x != id implies #[trigger] seq_has_id(s2, x) by {
        let j = choose|j: int| 0 <= j < s.len() && s[j].id == x;
        if j != i {
            if j < i {
                assert(s2[j].id == x);
            } else {
                assert(s2[j - 1].id == x);
            }
        }
    }
    assert forall|x: u128| #[trigger] seq_has_id(s2, x) implies rec_of(s2[idx_of(s2, x)]) == rec_of(
        s[idx_of(s, x)],
    ) by {
        let j2 = idx_of(s2, x);
        assert(0 <= j2 < s2.len() && s2[j2].id == x);
        let j1: int = if j2 < i {
            j2
        } else {
            j2 + 1
        };
        assert(s[j1].id == x);
        assert(seq_has_id(s, x));
        let j = idx_of(s, x);
        assert(0 <= j < s.len() && s[j].id == x);
        if j != j1 {
            if j < j1 {
                assert(s[j].id != s[j1].id);
            } else {
                assert(s[j1].id != s[j].id);
            }
        }
        assert(s2[j2] == s[j1]);
    }
    assert(map_of(s2) =~= map_of(s).remove(id));
}

/// The in-memory backend: a plain row vector with distinct ids and emails.
pub struct MemoryStore {
    records: Vec<User>,
}

impl MemoryStore {
    /// An empty store.
    pub fn new() -> (s: MemoryStore)
        ensures
            s.inv(),
            s.users() == Map::<u128, Rec>::empty(),
    {
        let s = MemoryStore { records: Vec::new() };
        proof {
            assert(s.users() =~= Map::<u128, Rec>::empty());
        }
        s
    }

    /// The index of the row holding `id`, if any.
    fn find_by_id(&self, id: u128) -> (r: Option<usize>)
        ensures
            match r {
                Some(i) => i < self.records@.len() && self.records@[i as int].id == id,
                None => !seq_has_id(self.records@, id),
            },
    {
        let mut i: usize = 0;
        while i < self.records.len()
            invariant
                i <= self.records@.len(),
                forall|k: int| 0 <= k < i ==> #[trigger] self.records@[k].id != id,
            decreases self.records@.len() - i,
        {
            if self.records[i].id == id {
                return Some(i);
            }
            i = i + 1;
        }
        None
    }

    /// The index of the row carrying `email`, if any.
    fn find_by_email(&self, email: &str) -> (r: Option<usize>)
        ensures
            match r {
                Some(i) => i < self.records@.len() && self.records@[i as int].email@ == email@,
                None => forall|k: int|
                    0 <= k < self.records@.len() ==> #[trigger] self.records@[k].email@ != email@,
            },
    {
        let target: String = email.to_owned();
        let mut i: usize = 0;
        while i < self.records.len()
            invariant
                i <= self.records@.len(),
                target@ == email@,
                forall|k: int| 0 <= k < i ==> #[trigger] self.records@[k].email@ != email@,
            decreases self.records@.len() - i,
        {
            if self.records[i].email == target {
                return Some(i);
            }
            i = i + 1;
        }
        None
    }
}

impl DBConnection for MemoryStore {
    closed spec fn users(&self) -> Map<u128, Rec> {
        map_of(self.records@)
    }

    closed spec fn inv(&self) -> bool {
        distinct_users(self.records@)
    }

    proof fn inv_unique_emails(&self) {
        lemma_unique_emails_of(self.records@);
    }

    fn init(&mut self) -> (r: Result<(), Error>)
        ensures
            r is Ok,
    {
        Ok(())
    }

    fn create_user(&mut self, id: u128, email: &str, hash: &str, is_admin: bool) -> (r: Result<
        (),
        Error,
    >)
        ensures
            ({
                let (m2, res) = spec_create(
                    old(self).users(),
                    id,
                    Rec { email: email@, password: hash@, is_admin },
                );
                final(self).users() == m2 && r == res
            }),
    {
        let ghost s = self.records@;
        let ghost rec = Rec { email: email@, password: hash@, is_admin };
        proof {
            lemma_map_of_props(s);
        }
        match self.find_by_email(email) {
            Some(i) => {
                proof {
                    assert(map_of(s).contains_key(s[i as int].id));
                    assert(has_email(map_of(s), email@));
                }
                Err(Error::EmailAlreadyExists)
            },
            None => {
                proof {
                    assert forall|x: u128| #[trigger]
                        map_of(s).contains_key(x) implies map_of(s)[x].email != email@ by {
                        let k = idx_of(s, x);
                        assert(0 <= k < s.len() && s[k].id == x);
                        assert(map_of(s)[x] == rec_of(s[k]));
                        assert(s[k].email@ != email@);
                    }
                    assert(!has_email(map_of(s), email@));
                    assert(!seq_has_id(s, id));
                }
                let u = User { id, email: email.to_owned(), password: hash.to_owned(), is_admin };
                let ghost gu = u;
                self.records.push(u);
                proof {
                    assert(rec_of(gu) == rec);
                    assert forall|a: int, b: int|
                        #![trigger self.records@[a], self.records@[b]]
                        0 <= a < b < self.records@.len() implies self.records@[a].id
                        != self.records@[b].id && self.records@[a].email@
                        != self.records@[b].email@ by {
                        if b < s.len() {
                            assert(self.records@[a] == s[a] && self.records@[b] == s[b]);
                        } else {
                            assert(self.records@[b] == gu);
                            assert(self.records@[a] == s[a]);
                            if s[a].id == gu.id {
                                assert(seq_has_id(s, id));
                            }
                        }
                    }
                    lemma_map_push(s, gu);
                }
                Ok(())
            },
        }
    }

    fn update_user(&mut self, user: &User) -> (r: Result<(), Error>)
        ensures
            ({
                let (m2, res) = spec_update(old(self).users(), user.id, rec_of(*user));
                final(self).users() == m2 && r == res
            }),
    {
        let ghost s = self.records@;
        proof {
            lemma_map_of_props(s);
        }
        let i = match self.find_by_id(user.id) {
            None => {
                proof {
                    assert(!map_of(s).contains_key(user.id));
                }
                return Err(Error::UserNotFoundError);
            },
            Some(i) => i,
        };
        proof {
            assert(map_of(s).contains_key(s[i as int].id));
        }
        match self.find_by_email(user.email.as_str()) {
            Some(j) => {
                if j != i {
                    proof {
                        let gj = j as int;
                        assert(s[gj].email@ == user.email@);
                        assert(map_of(s).contains_key(s[gj].id));
                        assert(map_of(s)[s[gj].id] == rec_of(s[gj]));
                        if gj < i as int {
                            assert(s[gj].id != s[i as int].id);
                        } else {
                            assert(s[i as int].id != s[gj].id);
                        }
                        assert(has_other_email(map_of(s), user.id, user.email@));
                    }
                    return Err(Error::EmailAlreadyExists);
                }
                proof {
                    assert forall|k: int|
                        0 <= k < s.len() && k != i as int implies #[trigger] s[k].email@
                        != user.email@ by {
                        if k < i as int {
                            assert(s[k].email@ != s[i as int].email@);
                        } else {
                            assert(s[i as int].email@ != s[k].email@);
                        }
                    }
                }
            },
            None => {},
        }
        proof {
            assert(forall|k: int|
                0 <= k < s.len() && k != i as int ==> #[trigger] s[k].email@ != user.email@);
            assert forall|x: u128|
                #[trigger] map_of(s).contains_key(x) && x != user.id implies map_of(s)[x].email
                != user.email@ by {
                let k = idx_of(s, x);
                assert(0 <= k < s.len() && s[k].id == x);
                assert(map_of(s)[x] == rec_of(s[k]));
                if k == i as int {
                    assert(x == user.id);
                }
            }
            assert(!has_other_email(map_of(s), user.id, user.email@));
        }
        let _removed = self.records.remove(i);
        let fresh = user.duplicate();
        let ghost gu = fresh;
        let ghost s1 = self.records@;
        proof {
            lemma_map_remove(s, i as int);
            assert(s[i as int].id == user.id);
            assert forall|k: int| 0 <= k < s1.len() implies #[trigger] s1[k].email@
                != user.email@ by {
                let k1: int = if k < i as int {
                    k
                } else {
                    k + 1
                };
                assert(s1[k] == s[k1]);
            }
        }
        self.records.push(fresh);
        proof {
            assert(gu == *user);
            assert forall|a: int, b: int|
                #![trigger self.records@[a], self.records@[b]]
                0 <= a < b < self.records@.len() implies self.records@[a].id != self.records@[b].id
                && self.records@[a].email@ != self.records@[b].email@ by {
                if b < s1.len() {
                    assert(self.records@[a] == s1[a] && self.records@[b] == s1[b]);
                } else {
                    assert(self.records@[b] == gu);
                    assert(self.records@[a] == s1[a]);
                    if s1[a].id == gu.id {
                        assert(seq_has_id(s1, user.id));
                    }
                }
            }
            lemma_map_push(s1, gu);
            assert(map_of(self.records@) =~= map_of(s).insert(user.id, rec_of(*user)));
        }
        Ok(())
    }

    fn delete_user_by_id(&mut self, user_id: u128) -> (r: Result<(), Error>)
        ensures
            r is Ok,
            final(self).users() == spec_delete_id(old(self).users(), user_id),
    {
        let ghost s = self.records@;
        proof {
            lemma_map_of_props(s);
        }
        match self.find_by_id(user_id) {
            None => {
                proof {
                    assert(!map_of(s).contains_key(user_id));
                    assert(map_of(s).remove(user_id) =~= map_of(s));
                }
                Ok(())
            },
            Some(i) => {
                let _removed = self.records.remove(i);
                proof {
                    lemma_map_remove(s, i as int);
                }
                Ok(())
            },
        }
    }

    fn delete_user_by_email(&mut self, email: &str) -> (r: Result<(), Error>)
        ensures
            r is Ok,
            final(self).users() == spec_delete_email(old(self).users(), email@),
    {
        let ghost s = self.records@;
        proof {
            lemma_map_of_props(s);
        }
        match self.find_by_email(email) {
            None => {
                proof {
                    assert forall|x: u128| #[trigger]
                        map_of(s).contains_key(x) implies map_of(s)[x].email != email@ by {
                        let k = idx_of(s, x);
                        assert(0 <= k < s.len() && s[k].id == x);
                        assert(map_of(s)[x] == rec_of(s[k]));
                    }
                    assert(!has_email(map_of(s), email@));
                }
                Ok(())
            },
            Some(i) => {
                let _removed = self.records.remove(i);
                proof {
                    let gi = i as int;
                    assert(map_of(s).contains_key(s[gi].id));
                    assert(map_of(s)[s[gi].id] == rec_of(s[gi]));
                    assert(has_email(map_of(s), email@));
                    lemma_map_remove(s, gi);
                    lemma_unique_emails_of(s);
                    let owner = email_owner(map_of(s), email@);
                    assert(map_of(s).contains_key(owner) && map_of(s)[owner].email == email@);
                    assert(owner == s[gi].id);
                }
                Ok(())
            },
        }
    }

    fn get_user_by_id(&self, user_id: u128) -> (r: Result<User, Error>)
        ensures
            (r is Ok) == self.users().contains_key(user_id),
            r matches Err(e) ==> e == Error::UserNotFoundError,
    {
        let ghost s = self.records@;
        proof {
            lemma_map_of_props(s);
        }
        match self.find_by_id(user_id) {
            None => Err(Error::UserNotFoundError),
            Some(i) => {
                let u = self.records[i].duplicate();
                proof {
                    let gi = i as int;
                    assert(map_of(s).contains_key(s[gi].id));
                    assert(map_of(s)[s[gi].id] == rec_of(s[gi]));
                }
                Ok(u)
            },
        }
    }

    fn get_user_by_email(&self, email: &str) -> (r: Result<User, Error>)
        ensures
            (r is Ok) == has_email(self.users(), email@),
            r matches Err(e) ==> e == Error::UserNotFoundError,
    {
        let ghost s = self.records@;
        proof {
            lemma_map_of_props(s);
        }
        match self.find_by_email(email) {
            None => {
                proof {
                    assert forall|x: u128| #[trigger]
                        map_of(s).contains_key(x) implies map_of(s)[x].email != email@ by {
                        let k = idx_of(s, x);
                        assert(0 <= k < s.len() && s[k].id == x);
                        assert(map_of(s)[x] == rec_of(s[k]));
                    }
                    assert(!has_email(map_of(s), email@));
                }
                Err(Error::UserNotFoundError)
            },
            Some(i) => {
                let u = self.records[i].duplicate();
                proof {
                    let gi = i as int;
                    assert(map_of(s).contains_key(s[gi].id));
                    assert(map_of(s)[s[gi].id] == rec_of(s[gi]));
                    assert(has_email(map_of(s), email@));
                }
                Ok(u)
            },
        }
    }
}

} // verus!
