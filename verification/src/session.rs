//! The session-token store: ephemeral values keyed by a 128-bit identifier,
//! each with a time-to-live, together with a verified in-memory table giving
//! the contract its reference semantics. Expiry is observed by `get`: an
//! entry whose time-to-live has elapsed is never returned.

use crate::error::Error;
use vstd::prelude::*;

verus! {

/// The default time-to-live of one year, in seconds.
pub const YEAR_IN_SECS: u64 = 365 * 60 * 60 * 24;

/// The abstract content of one session entry: its token and the instant,
/// in seconds, from which it no longer exists for readers.
#[verifier::ext_equal]
pub ghost struct SessionRec {
    pub value: Seq<char>,
    pub expires_at: u64,
}

/// An entry is readable at `now`: present and not yet expired.
pub open spec fn live(m: Map<u128, SessionRec>, id: u128, now: u64) -> bool {
    m.contains_key(id) && now < m[id].expires_at
}

/// What a lookup at `now` returns: the token while the entry lives, and
/// nothing once it has expired or was never stored.
pub open spec fn spec_session_get(m: Map<u128, SessionRec>, id: u128, now: u64) -> Option<
    Seq<char>,
> {
    if live(m, id, now) {
        Some(m[id].value)
    } else {
        None
    }
}

/// An error kind that a session backend may surface.
pub open spec fn session_fault(e: Error) -> bool {
    e matches Error::RedisError(_)
}

/// The session-store contract. Time is handed in by the caller as a plain
/// second count, so that expiry is part of the stated semantics rather than
/// an ambient effect.
pub trait SessionManager: Sized {
    /// The abstract session table.
    spec fn sessions(&self) -> Map<u128, SessionRec>;

    /// The backend's internal well-formedness.
    spec fn inv(&self) -> bool;

    /// Store `key` under `id` with the default time-to-live of one year.
    fn insert(&mut self, id: u128, key: String, now: u64) -> (r: Result<(), Error>)
        requires
            old(self).inv(),
            now + YEAR_IN_SECS <= u64::MAX,
        ensures
            final(self).inv(),
            match r {
                Ok(()) => final(self).sessions() == old(self).sessions().insert(
                    id,
                    SessionRec { value: key@, expires_at: (now + YEAR_IN_SECS) as u64 },
                ),
                Err(e) => final(self).sessions() == old(self).sessions() && session_fault(e),
            },
    ;

    /// Store `key` under `id` with an explicit time-to-live in seconds.
    fn insert_for(&mut self, id: u128, key: String, ttl_secs: u64, now: u64) -> (r: Result<
        (),
        Error,
    >)
        requires
            old(self).inv(),
            now + ttl_secs <= u64::MAX,
        ensures
            final(self).inv(),
            match r {
                Ok(()) => final(self).sessions() == old(self).sessions().insert(
                    id,
                    SessionRec { value: key@, expires_at: (now + ttl_secs) as u64 },
                ),
                Err(e) => final(self).sessions() == old(self).sessions() && session_fault(e),
            },
    ;

    /// Delete the entry under `id`; a missing entry is a successful no-op.
    fn remove(&mut self, id: u128) -> (r: Result<(), Error>)
        requires
            old(self).inv(),
        ensures
            final(self).inv(),
            match r {
                Ok(()) => final(self).sessions() == old(self).sessions().remove(id),
                Err(e) => final(self).sessions() == old(self).sessions() && session_fault(e),
            },
    ;

    /// Return the token under `id` if the entry is still live at `now`. An
    /// empty result covers expiry, absence, and a backend connection fault
    /// alike: callers cannot tell them apart through this operation.
    fn get(&self, id: u128, now: u64) -> (r: Option<String>)
        requires
            self.inv(),
        ensures
            r matches Some(v) ==> live(self.sessions(), id, now) && v@ == self.sessions()[id].value,
    ;

    /// Remove every entry visible to the store's connection.
    fn clear_all(&mut self) -> (r: Result<(), Error>)
        requires
            old(self).inv(),
        ensures
            final(self).inv(),
            match r {
                Ok(()) => final(self).sessions() == Map::<u128, SessionRec>::empty(),
                Err(e) => final(self).sessions() == old(self).sessions() && session_fault(e),
            },
    ;

    /// A deliberate no-op: expiry is enforced by the provider's native
    /// time-to-live mechanism, not by sweeping from this layer.
    fn clear_expired(&mut self) -> (r: Result<(), Error>)
        requires
            old(self).inv(),
        ensures
            final(self).inv(),
            final(self).sessions() == old(self).sessions(),
            r is Ok,
    ;
}

/// One stored session row.
struct SessionRow {
    id: u128,
    value: String,
    expires_at: u64,
}

/// The abstract content of one row.
spec fn sess_rec_of(r: SessionRow) -> SessionRec {
    SessionRec { value: r.value@, expires_at: r.expires_at }
}

/// Some row holds this id.
spec fn rows_have_id(s: Seq<SessionRow>, id: u128) -> bool {
    exists|i: int| 0 <= i < s.len() && s[i].id == id
}

/// The row index holding this id.
spec fn row_idx_of(s: Seq<SessionRow>, id: u128) -> int {
    choose|i: int| 0 <= i < s.len() && s[i].id == id
}

/// The abstract session table described by a row sequence.
spec fn smap_of(s: Seq<SessionRow>) -> Map<u128, SessionRec> {
    Map::new(|id: u128| rows_have_id(s, id), |id: u128| sess_rec_of(s[row_idx_of(s, id)]))
}

/// No two rows share an id.
spec fn distinct_rows(s: Seq<SessionRow>) -> bool {
    forall|i: int, j: int|
        #![trigger s[i], s[j]]
        0 <= i < j < s.len() ==> s[i].id != s[j].id
}

/// With distinct ids each row is the table's value under its id.
proof fn lemma_smap_props(s: Seq<SessionRow>)
    requires
        distinct_rows(s),
    ensures
        forall|x: u128| #[trigger] smap_of(s).contains_key(x) <==> rows_have_id(s, x),
        forall|i: int|
            0 <= i < s.len() ==> smap_of(s).contains_key(#[trigger] s[i].id) && smap_of(s)[s[i].id]
                == sess_rec_of(s[i]),
{
    assert forall|i: int| 0 <= i < s.len() implies smap_of(s).contains_key(#[trigger] s[i].id)
        && smap_of(s)[s[i].id] == sess_rec_of(s[i]) by {
        assert(rows_have_id(s, s[i].id));
        let j = row_idx_of(s, s[i].id);
        assert(0 <= j < s.len() && s[j].id == s[i].id);
        if i != j {
            if i < j {
                assert(s[i].id != s[j].id);
            } else {
                assert(s[j].id != s[i].id);
            }
        }
    }
}

/// Appending a row with a fresh id inserts its entry into the table.
proof fn lemma_smap_push(s: Seq<SessionRow>, u: SessionRow)
    requires
        distinct_rows(s),
        !rows_have_id(s, u.id),
    ensures
        smap_of(s.push(u)) == smap_of(s).insert(u.id, sess_rec_of(u)),
        distinct_rows(s.push(u)),
{
    let s2 = s.push(u);
    assert(s2[s.len() as int] == u);
    assert forall|x: u128| #[trigger] rows_have_id(s2, x) implies (rows_have_id(s, x) || x
        == u.id) by {
        let i = choose|i: int| 0 <= i < s2.len() && s2[i].id == x;
        if i < s.len() {
            assert(s[i].id == x);
        } else {
            assert(s2[i] == u);
        }
    }
    assert forall|x: u128| rows_have_id(s, x) implies #[trigger] rows_have_id(s2, x) by {
        let i = choose|i: int| 0 <= i < s.len() && s[i].id == x;
        assert(s2[i].id == x);
    }
    assert(rows_have_id(s2, u.id));
    assert forall|x: u128| #[trigger] rows_have_id(s2, x) implies sess_rec_of(s2[row_idx_of(s2, x)])
        == (if x == u.id {
        sess_rec_of(u)
    } else {
        sess_rec_of(s[row_idx_of(s, x)])
    }) by {
        let i2 = row_idx_of(s2, x);
        assert(0 <= i2 < s2.len() && s2[i2].id == x);
        if x == u.id {
            if i2 < s.len() {
                assert(s[i2].id == u.id);
                assert(rows_have_id(s, u.id));
            }
            assert(s2[i2] == u);
        } else {
            assert(i2 < s.len());
            assert(s[i2].id == x);
            assert(rows_have_id(s, x));
            let i1 = row_idx_of(s, x);
            assert(0 <= i1 < s.len() && s[i1].id == x);
            if i1 != i2 {
                if i1 < i2 {
                    assert(s[i1].id != s[i2].id);
                } else {
                    assert(s[i2].id != s[i1].id);
                }
            }
            assert(s2[i2] == s[i2]);
        }
    }
    assert(smap_of(s2) =~= smap_of(s).insert(u.id, sess_rec_of(u)));
}

/// Removing a row deletes its entry from the table.
proof fn lemma_smap_remove(s: Seq<SessionRow>, i: int)
    requires
        distinct_rows(s),
        0 <= i < s.len(),
    ensures
        smap_of(s.remove(i)) == smap_of(s).remove(s[i].id),
        distinct_rows(s.remove(i)),
        !rows_have_id(s.remove(i), s[i].id),
{
    let s2 = s.remove(i);
    let id = s[i].id;
    assert forall|x: u128| #[trigger] rows_have_id(s2, x) implies (rows_have_id(s, x) && x
        != id) by {
        let j = choose|j: int| 0 <= j < s2.len() && s2[j].id == x;
        let j1: int = if j < i {
            j
        } else {
            j + 1
        };
        assert(s[j1].id == x);
        assert(rows_have_id(s, x));
        if j1 != i {
            if j1 < i {
                assert(s[j1].id != s[i].id);
            } else {
                assert(s[i].id != s[j1].id);
            }
        }
    }
    assert forall|x: u128| rows_have_id(s, x) && x != id implies #[trigger] rows_have_id(
        s2,
        x,
    ) by {
        let j = choose|j: int| 0 <= j < s.len() && s[j].id == x;
        if j != i {
            if j < i {
                assert(s2[j].id == x);
            } else {
                assert(s2[j - 1].id == x);
            }
        }
    }
    assert forall|x: u128| #[trigger] rows_have_id(s2, x) implies sess_rec_of(s2[row_idx_of(s2, x)])
        == sess_rec_of(s[row_idx_of(s, x)]) by {
        let j2 = row_idx_of(s2, x);
        assert(0 <= j2 < s2.len() && s2[j2].id == x);
        let j1: int = if j2 < i {
            j2
        } else {
            j2 + 1
        };
        assert(s[j1].id == x);
        assert(rows_have_id(s, x));
        let j = row_idx_of(s, x);
        assert(0 <= j < s.len() && s[j].id == x);
        if j != j1 {
            if j < j1 {
                assert(s[j].id != s[j1].id);
            } else {
                assert(s[j1].id != s[j].id);
            }
        }
        assert(s2[j2] == s[j1]);
    }
    assert(smap_of(s2) =~= smap_of(s).remove(id));
}

/// The verified in-memory session table: the reference implementation of
/// the session-store contract.
pub struct SessionTable {
    rows: Vec<SessionRow>,
}

impl SessionTable {
    /// An empty table.
    pub fn new() -> (s: SessionTable)
        ensures
            s.inv(),
            s.sessions() == Map::<u128, SessionRec>::empty(),
    {
        let s = SessionTable { rows: Vec::new() };
        proof {
            assert(s.sessions() =~= Map::<u128, SessionRec>::empty());
        }
        s
    }

    /// The index of the row holding `id`, if any.
    fn find(&self, id: u128) -> (r: Option<usize>)
        ensures
            match r {
                Some(i) => i < self.rows@.len() && self.rows@[i as int].id == id,
                None => !rows_have_id(self.rows@, id),
            },
    {
        let mut i: usize = 0;
        while i < self.rows.len()
            invariant
                i <= self.rows@.len(),
                forall|k: int| 0 <= k < i ==> #[trigger] self.rows@[k].id != id,
            decreases self.rows@.len() - i,
        {
            if self.rows[i].id == id {
                return Some(i);
            }
            i = i + 1;
        }
        None
    }

    /// Store `value` under `id`, to expire at `expires_at`; an existing
    /// entry under the same id is replaced.
    fn store(&mut self, id: u128, value: String, expires_at: u64)
        requires
            old(self).inv(),
        ensures
            final(self).inv(),
            final(self).sessions() == old(self).sessions().insert(
                id,
                SessionRec { value: value@, expires_at },
            ),
    {
        let ghost s = self.rows@;
        let ghost m = smap_of(s);
        proof {
            lemma_smap_props(s);
        }
        match self.find(id) {
            Some(i) => {
                let _removed = self.rows.remove(i);
                proof {
                    lemma_smap_remove(s, i as int);
                }
            },
            None => {
                proof {
                    assert(smap_of(s).remove(id) =~= smap_of(s));
                }
            },
        }
        let ghost s2 = self.rows@;
        let row = SessionRow { id, value, expires_at };
        let ghost grow = row;
        self.rows.push(row);
        proof {
            assert(smap_of(s2) == m.remove(id));
            assert(!rows_have_id(s2, id)) by {
                if rows_have_id(s2, id) {
                    lemma_smap_props_weak(s2);
                    assert(smap_of(s2).contains_key(id));
                }
            }
            lemma_smap_push(s2, grow);
            assert(smap_of(self.rows@) =~= m.insert(id, sess_rec_of(grow)));
        }
    }
}

/// Membership in the table implies a row holds the id, without assuming
/// distinctness.
proof fn lemma_smap_props_weak(s: Seq<SessionRow>)
    ensures
        forall|x: u128| #[trigger] smap_of(s).contains_key(x) <==> rows_have_id(s, x),
{
}

impl SessionManager for SessionTable {
    closed spec fn sessions(&self) -> Map<u128, SessionRec> {
        smap_of(self.rows@)
    }

    closed spec fn inv(&self) -> bool {
        distinct_rows(self.rows@)
    }

    fn insert(&mut self, id: u128, key: String, now: u64) -> (r: Result<(), Error>)
        ensures
            r is Ok,
    {
        self.store(id, key, now + YEAR_IN_SECS);
        Ok(())
    }

    fn insert_for(&mut self, id: u128, key: String, ttl_secs: u64, now: u64) -> (r: Result<
        (),
        Error,
    >)
        ensures
            r is Ok,
    {
        self.store(id, key, now + ttl_secs);
        Ok(())
    }

    fn remove(&mut self, id: u128) -> (r: Result<(), Error>)
        ensures
            r is Ok,
    {
        let ghost s = self.rows@;
        proof {
            lemma_smap_props(s);
        }
        match self.find(id) {
            Some(i) => {
                let _removed = self.rows.remove(i);
                proof {
                    lemma_smap_remove(s, i as int);
                }
            },
            None => {
                proof {
                    assert(smap_of(s).remove(id) =~= smap_of(s));
                }
            },
        }
        Ok(())
    }

    fn get(&self, id: u128, now: u64) -> (r: Option<String>)
        ensures
            ({
                match spec_session_get(self.sessions(), id, now) {
                    Some(v) => r matches Some(t) && t@ == v,
                    None => r is None,
                }
            }),
    {
        let ghost s = self.rows@;
        proof {
            lemma_smap_props(s);
        }
        match self.find(id) {
            None => None,
            Some(i) => {
                if now < self.rows[i].expires_at {
                    Some(self.rows[i].value.clone())
                } else {
                    None
                }
            },
        }
    }

    fn clear_all(&mut self) -> (r: Result<(), Error>)
        ensures
            r is Ok,
    {
        self.rows = Vec::new();
        proof {
            assert(smap_of(self.rows@) =~= Map::<u128, SessionRec>::empty());
        }
        Ok(())
    }

    fn clear_expired(&mut self) -> (r: Result<(), Error>) {
        Ok(())
    }
}

/// The session-store key layout: byte `i` of the identifier, most
/// significant first.
pub open spec fn id_byte(id: u128, i: int) -> u8 {
    (id >> ((15 - i) * 8)) as u8
}

/// The 128-bit identifier encoded as its 16 raw bytes, most significant
/// first: the key handed to the storage boundary.
pub fn id_bytes(id: u128) -> (r: Vec<u8>)
    ensures
        r@.len() == 16,
        forall|i: int| 0 <= i < 16 ==> r@[i] == id_byte(id, i),
{
    let mut v: Vec<u8> = Vec::new();
    let mut i: usize = 0;
    while i < 16
        invariant
            i <= 16,
            v@.len() == i as nat,
            forall|k: int| 0 <= k < i ==> v@[k] == id_byte(id, k),
        decreases 16 - i,
    {
        let sh: u32 = (15 - i as u32) * 8;
        v.push((id >> sh) as u8);
        i = i + 1;
    }
    v
}

} // verus!
