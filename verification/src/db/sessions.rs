//! The sessions table: at most one session for each user, each with a
//! token and an expiry.

use vstd::prelude::*;
use crate::clock::{expiry_fits, SESSION_TTL_SECS};
use crate::db::{
    rows_view, timestamp_out_of_range, timestamp_out_of_range_failure, StoreFailure,
    StoreFailureView,
};

verus! {

/// One row of the sessions table.
pub struct SessionRow {
    user_id: i32,
    token: String,
    created_at: u64,
    expires_at: u64,
}

/// A [`SessionRow`] over sequences of characters.
pub struct SessionRowView {
    pub user_id: i32,
    pub token: Seq<char>,
    pub created_at: u64,
    pub expires_at: u64,
}

impl View for SessionRow {
    type V = SessionRowView;

    closed spec fn view(&self) -> SessionRowView {
        SessionRowView {
            user_id: self.user_id,
            token: self.token@,
            created_at: self.created_at,
            expires_at: self.expires_at,
        }
    }
}

impl SessionRowView {
    /// Whether the session is still valid at `now`.
    pub open spec fn live(self, now: u64) -> bool {
        self.expires_at - now > 0
    }

    /// Whether the session carries `token` and is still valid at `now`.
    pub open spec fn answers(self, token: Seq<char>, now: u64) -> bool {
        self.token == token && self.live(now)
    }
}

/// No two sessions belong to the same user.
pub open spec fn sessions_distinct(sessions: Seq<SessionRowView>) -> bool {
    forall|i: int, j: int|
        0 <= i < j < sessions.len() ==> sessions[i].user_id != sessions[j].user_id
}

/// Whether row `i` is the session of `user_id`.
pub open spec fn is_session_of(sessions: Seq<SessionRowView>, user_id: i32, i: int) -> bool {
    0 <= i < sessions.len() && sessions[i].user_id == user_id
}

/// The row that holds the session of `user_id`, if there is one.
pub open spec fn session_index(sessions: Seq<SessionRowView>, user_id: i32) -> Option<int> {
    if exists|i: int| is_session_of(sessions, user_id, i) {
        Some(choose|i: int| is_session_of(sessions, user_id, i))
    } else {
        None
    }
}

/// Whether row `i` is the first session that carries `token` and is valid at `now`.
pub open spec fn is_first_answer(
    sessions: Seq<SessionRowView>,
    token: Seq<char>,
    now: u64,
    i: int,
) -> bool {
    &&& 0 <= i < sessions.len()
    &&& sessions[i].answers(token, now)
    &&& forall|j: int| 0 <= j < i ==> !(#[trigger] sessions[j]).answers(token, now)
}

/// The first session that carries `token` and is valid at `now`, if there is one.
pub open spec fn first_answer(sessions: Seq<SessionRowView>, token: Seq<char>, now: u64) -> Option<
    SessionRowView,
> {
    if exists|i: int| is_first_answer(sessions, token, now, i) {
        Some(sessions[choose|i: int| is_first_answer(sessions, token, now, i)])
    } else {
        None
    }
}

/// The sessions table after a session with `token` was written for
/// `user_id` at `now`: the user's row is replaced where there is one, with a
/// new expiry, and added where there is none.
pub open spec fn sessions_after_upsert(
    sessions: Seq<SessionRowView>,
    user_id: i32,
    token: Seq<char>,
    now: u64,
) -> Seq<SessionRowView> {
    let expires_at = (now + SESSION_TTL_SECS) as u64;
    match session_index(sessions, user_id) {
        Some(i) => sessions.update(
            i,
            SessionRowView { user_id, token, created_at: sessions[i].created_at, expires_at },
        ),
        None => sessions.push(SessionRowView { user_id, token, created_at: now, expires_at }),
    }
}

/// The sessions table and the answer after `INSERT INTO sessions .. ON
/// CONFLICT (user_id) DO UPDATE ..` at `now`: one row is written, unless the
/// expiry is a moment that the store cannot hold.
pub open spec fn upserted(
    sessions: Seq<SessionRowView>,
    user_id: i32,
    token: Seq<char>,
    now: u64,
) -> (Seq<SessionRowView>, Result<u64, StoreFailureView>) {
    if expiry_fits(now) {
        (sessions_after_upsert(sessions, user_id, token, now), Ok(1))
    } else {
        (sessions, Err(timestamp_out_of_range()))
    }
}

/// The sessions table after the session of `user_id` was deleted.
pub open spec fn sessions_after_delete(sessions: Seq<SessionRowView>, user_id: i32) -> Seq<
    SessionRowView,
> {
    match session_index(sessions, user_id) {
        Some(i) => sessions.remove(i),
        None => sessions,
    }
}

/// Two rows that hold a session of the same user are the same row.
pub proof fn lemma_session_index(sessions: Seq<SessionRowView>, user_id: i32, i: int)
    requires
        sessions_distinct(sessions),
        is_session_of(sessions, user_id, i),
    ensures
        session_index(sessions, user_id) == Some(i),
{
    let k = choose|k: int| is_session_of(sessions, user_id, k);
    if k < i {
        assert(sessions[k].user_id != sessions[i].user_id);
    } else if i < k {
        assert(sessions[i].user_id != sessions[k].user_id);
    }
}

/// The first answering row is the only first answering row.
pub proof fn lemma_first_answer(sessions: Seq<SessionRowView>, token: Seq<char>, now: u64, i: int)
    requires
        is_first_answer(sessions, token, now, i),
    ensures
        first_answer(sessions, token, now) == Some(sessions[i]),
{
    let k = choose|k: int| is_first_answer(sessions, token, now, k);
    if k < i {
        assert(!sessions[k].answers(token, now));
    } else if i < k {
        assert(!sessions[i].answers(token, now));
    }
}

/// After a session is written for a user, the table still holds at most one
/// row for each user; the user's row carries the new token and the new
/// expiry, and the rows of all other users are as before, each in its place.
pub proof fn lemma_upsert(sessions: Seq<SessionRowView>, user_id: i32, token: Seq<char>, now: u64)
    requires
        sessions_distinct(sessions),
    ensures
        ({
            let after = sessions_after_upsert(sessions, user_id, token, now);
            &&& sessions_distinct(after)
            &&& sessions.len() <= after.len() <= sessions.len() + 1
            &&& forall|i: int|
                0 <= i < after.len() && (#[trigger] after[i]).user_id == user_id ==> {
                    &&& after[i].token == token
                    &&& after[i].expires_at == (now + SESSION_TTL_SECS) as u64
                }
            &&& forall|i: int|
                0 <= i < after.len() && (#[trigger] after[i]).user_id != user_id ==> i
                    < sessions.len() && after[i] == sessions[i]
            &&& exists|i: int| is_session_of(after, user_id, i)
        }),
{
    let after = sessions_after_upsert(sessions, user_id, token, now);
    match session_index(sessions, user_id) {
        Some(k) => {
            assert(is_session_of(sessions, user_id, k));
            assert(is_session_of(after, user_id, k));
            assert forall|i: int, j: int| 0 <= i < j < after.len() implies after[i].user_id
                != after[j].user_id by {
                assert(sessions[i].user_id != sessions[j].user_id);
            }
            assert forall|i: int| 0 <= i < after.len() && (#[trigger] after[i]).user_id
                == user_id implies after[i].token == token && after[i].expires_at == (now
                + SESSION_TTL_SECS) as u64 by {
                if i != k {
                    assert(is_session_of(sessions, user_id, i));
                    lemma_session_index(sessions, user_id, i);
                }
            }
        },
        None => {
            let last = sessions.len() as int;
            assert(is_session_of(after, user_id, last));
            assert forall|i: int, j: int| 0 <= i < j < after.len() implies after[i].user_id
                != after[j].user_id by {
                if j == last {
                    assert(!is_session_of(sessions, user_id, i));
                } else {
                    assert(sessions[i].user_id != sessions[j].user_id);
                }
            }
            assert forall|i: int| 0 <= i < after.len() && (#[trigger] after[i]).user_id
                == user_id implies after[i].token == token && after[i].expires_at == (now
                + SESSION_TTL_SECS) as u64 by {
                if i != last {
                    assert(is_session_of(sessions, user_id, i));
                }
            }
        },
    }
}

/// Where some session carries a token and is valid, one of them is the first.
pub proof fn lemma_some_answer_is_first(
    sessions: Seq<SessionRowView>,
    token: Seq<char>,
    now: u64,
    i: int,
) -> (k: int)
    requires
        0 <= i < sessions.len(),
        sessions[i].answers(token, now),
    ensures
        0 <= k <= i,
        is_first_answer(sessions, token, now, k),
    decreases i,
{
    if exists|j: int| 0 <= j < i && (#[trigger] sessions[j]).answers(token, now) {
        let j = choose|j: int| 0 <= j < i && (#[trigger] sessions[j]).answers(token, now);
        lemma_some_answer_is_first(sessions, token, now, j)
    } else {
        i
    }
}

/// A row that does not answer for a token does not count: the table
/// without row `gap` gives the same first answer as the table with it.
pub proof fn lemma_same_first_answer(
    long: Seq<SessionRowView>,
    short: Seq<SessionRowView>,
    gap: int,
    token: Seq<char>,
    now: u64,
)
    requires
        0 <= gap < long.len(),
        short.len() == long.len() - 1,
        !long[gap].answers(token, now),
        forall|i: int| 0 <= i < gap ==> #[trigger] short[i] == long[i],
        forall|i: int| gap <= i < short.len() ==> #[trigger] short[i] == long[i + 1],
    ensures
        first_answer(long, token, now) == first_answer(short, token, now),
{
    if exists|i: int| is_first_answer(long, token, now, i) {
        let i = choose|i: int| is_first_answer(long, token, now, i);
        let j = if i < gap {
            i
        } else {
            i - 1
        };
        assert(short[j] == long[i]);
        assert forall|m: int| 0 <= m < j implies !(#[trigger] short[m]).answers(token, now) by {
            if m < gap {
                assert(short[m] == long[m]);
                assert(!long[m].answers(token, now));
            } else {
                assert(short[m] == long[m + 1]);
                assert(!long[m + 1].answers(token, now));
            }
        }
        assert(is_first_answer(short, token, now, j));
        lemma_first_answer(short, token, now, j);
        lemma_first_answer(long, token, now, i);
    } else {
        if exists|j: int| is_first_answer(short, token, now, j) {
            let j = choose|j: int| is_first_answer(short, token, now, j);
            let i = if j < gap {
                j
            } else {
                j + 1
            };
            assert(short[j] == long[i]);
            assert(long[i].answers(token, now));
            let k = lemma_some_answer_is_first(long, token, now, i);
            assert(false);
        }
    }
}

/// A write of a session, and a failed one, keep the table at one row for
/// each user.
pub proof fn lemma_upserted(sessions: Seq<SessionRowView>, user_id: i32, token: Seq<char>, now: u64)
    requires
        sessions_distinct(sessions),
    ensures
        sessions_distinct(upserted(sessions, user_id, token, now).0),
{
    lemma_upsert(sessions, user_id, token, now);
}

/// Deleting the session of a user keeps the table at one row for each
/// user, and leaves no row of this user.
pub proof fn lemma_delete(sessions: Seq<SessionRowView>, user_id: i32)
    requires
        sessions_distinct(sessions),
    ensures
        sessions_distinct(sessions_after_delete(sessions, user_id)),
        session_index(sessions_after_delete(sessions, user_id), user_id) is None,
{
    let after = sessions_after_delete(sessions, user_id);
    match session_index(sessions, user_id) {
        Some(k) => {
            assert(is_session_of(sessions, user_id, k));
            assert forall|i: int, j: int| 0 <= i < j < after.len() implies after[i].user_id
                != after[j].user_id by {
                let a = if i < k { i } else { i + 1 };
                let b = if j < k { j } else { j + 1 };
                assert(sessions[a].user_id != sessions[b].user_id);
            }
            assert forall|i: int| !is_session_of(after, user_id, i) by {
                if 0 <= i < after.len() {
                    let a = if i < k { i } else { i + 1 };
                    if a < k {
                        assert(sessions[a].user_id != sessions[k].user_id);
                    } else {
                        assert(sessions[k].user_id != sessions[a].user_id);
                    }
                }
            }
        },
        None => {},
    }
}

/// The sessions table: at most one row for each user.
pub struct SessionTable {
    rows: Vec<SessionRow>,
}

impl View for SessionTable {
    type V = Seq<SessionRowView>;

    closed spec fn view(&self) -> Seq<SessionRowView> {
        Seq::new(self.rows@.len(), |i: int| self.rows@[i]@)
    }
}

impl SessionTable {
    /// The invariant of the table: no user has two sessions.
    pub open spec fn wf(&self) -> bool {
        sessions_distinct(self@)
    }

    /// An empty table.
    pub fn new() -> (table: Self)
        ensures
            table@ == Seq::<SessionRowView>::empty(),
            table.wf(),
    {
        let table = SessionTable { rows: Vec::new() };
        assert(table@ =~= Seq::<SessionRowView>::empty());
        table
    }

    /// The number of rows, live or expired.
    pub fn len(&self) -> (n: usize)
        ensures
            n == self@.len(),
    {
        self.rows.len()
    }

    fn find(&self, user_id: i32) -> (found: Option<usize>)
        requires
            self.wf(),
        ensures
            match found {
                Some(i) => session_index(self@, user_id) == Some(i as int),
                None => session_index(self@, user_id) is None,
            },
    {
        let mut i: usize = 0;
        while i < self.rows.len()
            invariant
                self.wf(),
                i <= self.rows.len(),
                forall|j: int| 0 <= j < i ==> !is_session_of(self@, user_id, j),
            decreases self.rows.len() - i,
        {
            if self.rows[i].user_id == user_id {
                proof {
                    lemma_session_index(self@, user_id, i as int);
                }
                return Some(i);
            }
            i += 1;
        }
        None
    }

    /// Writes the session of `user_id`: `INSERT .. ON CONFLICT (user_id) DO
    /// UPDATE`. Answers with the number of rows written, which is one, or
    /// with the failure to compute the expiry.
    pub fn upsert(&mut self, user_id: i32, token: String, now: u64) -> (written: Result<
        u64,
        StoreFailure,
    >)
        requires
            old(self).wf(),
        ensures
            final(self).wf(),
            (final(self)@, rows_view(written)) == upserted(old(self)@, user_id, token@, now),
    {
        if now > u64::MAX - SESSION_TTL_SECS {
            return Err(timestamp_out_of_range_failure());
        }
        let expires_at = now + SESSION_TTL_SECS;
        match self.find(user_id) {
            Some(i) => {
                let created_at = self.rows[i].created_at;
                self.rows.set(i, SessionRow { user_id, token, created_at, expires_at });
                assert(self@ =~= sessions_after_upsert(old(self)@, user_id, token@, now));
            },
            None => {
                self.rows.push(SessionRow { user_id, token, created_at: now, expires_at });
                assert(self@ =~= sessions_after_upsert(old(self)@, user_id, token@, now));
            },
        }
        proof {
            lemma_upsert(old(self)@, user_id, token@, now);
        }
        Ok(1)
    }

    /// Deletes the session of `user_id`. Answers with the number of rows
    /// deleted: one, or none where the user had no session.
    pub fn delete(&mut self, user_id: i32) -> (deleted: Result<u64, StoreFailure>)
        requires
            old(self).wf(),
        ensures
            final(self).wf(),
            final(self)@ == sessions_after_delete(old(self)@, user_id),
            deleted == Ok::<u64, StoreFailure>(
                if session_index(old(self)@, user_id) is Some {
                    1
                } else {
                    0
                },
            ),
    {
        match self.find(user_id) {
            Some(i) => {
                self.rows.remove(i);
                assert(self@ =~= sessions_after_delete(old(self)@, user_id));
                proof {
                    lemma_delete(old(self)@, user_id);
                }
                Ok(1)
            },
            None => Ok(0),
        }
    }

    /// The user whose session is the first to carry `token` and to be valid
    /// at `now`.
    pub fn owner(&self, token: &String, now: u64) -> (owner: Option<i32>)
        ensures
            owner == match first_answer(self@, token@, now) {
                Some(session) => Some(session.user_id),
                None => None,
            },
    {
        let mut i: usize = 0;
        while i < self.rows.len()
            invariant
                i <= self.rows.len(),
                forall|j: int| 0 <= j < i ==> !(#[trigger] self@[j]).answers(token@, now),
            decreases self.rows.len() - i,
        {
            if self.rows[i].token == *token && self.rows[i].expires_at > now {
                proof {
                    lemma_first_answer(self@, token@, now, i as int);
                }
                return Some(self.rows[i].user_id);
            }
            i += 1;
        }
        assert forall|k: int| !is_first_answer(self@, token@, now, k) by {
            if 0 <= k < self@.len() {
                assert(!self@[k].answers(token@, now));
            }
        }
        None
    }
}

} // verus!
