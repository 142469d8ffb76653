//! The laws that hold of the storage and session semantics, proved once over
//! the transition functions that the implementations' contracts are stated
//! with.

use crate::error::Error;
use crate::session::{spec_session_get, SessionRec};
use crate::store::{has_email, spec_create, spec_delete_id, spec_get, spec_update};
use crate::user::Rec;
use vstd::prelude::*;

verus! {

/// For every valid tuple — an email not yet present — creating the record
/// and then looking its id up yields exactly the inserted fields.
pub proof fn law_create_then_get(m: Map<u128, Rec>, id: u128, r: Rec)
    requires
        !has_email(m, r.email),
    ensures
        spec_create(m, id, r).1 == Ok::<(), Error>(()),
        spec_get(spec_create(m, id, r).0, id) == Ok::<Rec, Error>(r),
{
}

/// Creating a record under an email already present fails with the conflict
/// error and leaves the table unchanged, whatever the backend holds besides.
pub proof fn law_create_conflict(m: Map<u128, Rec>, id: u128, r: Rec)
    requires
        has_email(m, r.email),
    ensures
        spec_create(m, id, r).0 == m,
        spec_create(m, id, r).1 == Err::<(), Error>(Error::EmailAlreadyExists),
{
}

/// After deleting an id, looking it up fails with the not-found error.
pub proof fn law_delete_then_get(m: Map<u128, Rec>, id: u128)
    ensures
        spec_get(spec_delete_id(m, id), id) == Err::<Rec, Error>(Error::UserNotFoundError),
{
}

/// A successful update changes exactly the targeted record: the record under
/// the id carries the new fields, and every other record is untouched.
pub proof fn law_update_touches_only_target(m: Map<u128, Rec>, id: u128, r: Rec)
    requires
        spec_update(m, id, r).1 is Ok,
    ensures
        spec_update(m, id, r).0.contains_key(id) && spec_update(m, id, r).0[id] == r,
        forall|j: u128|
            j != id ==> #[trigger] spec_update(m, id, r).0.contains_key(j) == m.contains_key(j),
        forall|j: u128|
            j != id && m.contains_key(j) ==> #[trigger] spec_update(m, id, r).0[j] == m[j],
{
}

/// A freshly inserted session entry with a positive time-to-live is readable
/// at once, and yields exactly the stored token.
pub proof fn law_insert_then_get(
    m: Map<u128, SessionRec>,
    id: u128,
    v: Seq<char>,
    ttl: u64,
    now: u64,
)
    requires
        0 < ttl,
        now + ttl <= u64::MAX,
    ensures
        spec_session_get(
            m.insert(id, SessionRec { value: v, expires_at: (now + ttl) as u64 }),
            id,
            now,
        ) == Some(v),
{
}

/// A session entry never outlives its time-to-live: once it has elapsed,
/// the lookup is empty.
pub proof fn law_get_after_expiry(
    m: Map<u128, SessionRec>,
    id: u128,
    v: Seq<char>,
    ttl: u64,
    now: u64,
    later: u64,
)
    requires
        now + ttl <= u64::MAX,
        now + ttl <= later,
    ensures
        spec_session_get(
            m.insert(id, SessionRec { value: v, expires_at: (now + ttl) as u64 }),
            id,
            later,
        ) == None::<Seq<char>>,
{
}

} // verus!
