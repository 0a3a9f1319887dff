//! The users table: accounts with unique identifiers, usernames and email
//! addresses, active or not.

use vstd::prelude::*;
use crate::clock::{stamp_of, timestamp_text};
use crate::db::{
    answer_view, out_of_identifiers, out_of_identifiers_failure, unique_violation,
    unique_violation_failure, StoreFailure, StoreFailureView,
};
use crate::modules::user::{User, UserView};
use crate::text::{clone_opt, opt_view};

verus! {

/// One row of the users table.
pub struct UserRow {
    user: User,
    salt: String,
    active: bool,
}

/// A [`UserRow`] over sequences of characters.
pub struct UserRowView {
    pub user: UserView,
    pub salt: Seq<char>,
    pub active: bool,
}

impl View for UserRow {
    type V = UserRowView;

    closed spec fn view(&self) -> UserRowView {
        UserRowView { user: self.user@, salt: self.salt@, active: self.active }
    }
}

/// The users table with the identifier that the next account gets.
pub struct UserTableView {
    pub rows: Seq<UserRowView>,
    pub next_id: int,
}

impl UserTableView {
    /// The invariant of the table: identifiers, usernames and email
    /// addresses are unique, and every identifier was handed out.
    pub open spec fn wf(self) -> bool {
        &&& 1 <= self.next_id <= i32::MAX + 1
        &&& forall|i: int|
            0 <= i < self.rows.len() ==> 1 <= (#[trigger] self.rows[i]).user.id < self.next_id
        &&& forall|i: int, j: int|
            0 <= i < j < self.rows.len() ==> {
                &&& self.rows[i].user.id != self.rows[j].user.id
                &&& self.rows[i].user.username != self.rows[j].user.username
                &&& self.rows[i].user.email != self.rows[j].user.email
            }
    }

    /// Whether row `i` holds the account `id`.
    pub open spec fn holds(self, id: i32, i: int) -> bool {
        0 <= i < self.rows.len() && self.rows[i].user.id == id
    }

    /// The row that holds the account `id`, if there is one.
    pub open spec fn index_of(self, id: i32) -> Option<int> {
        if exists|i: int| self.holds(id, i) {
            Some(choose|i: int| self.holds(id, i))
        } else {
            None
        }
    }

    /// Whether row `i` holds the account named `username`.
    pub open spec fn names(self, username: Seq<char>, i: int) -> bool {
        0 <= i < self.rows.len() && self.rows[i].user.username == username
    }

    /// The row that holds the account named `username`, if there is one.
    pub open spec fn index_of_username(self, username: Seq<char>) -> Option<int> {
        if exists|i: int| self.names(username, i) {
            Some(choose|i: int| self.names(username, i))
        } else {
            None
        }
    }

    /// Whether row `i` has the username or the email address.
    pub open spec fn conflicts(self, username: Seq<char>, email: Seq<char>, i: int) -> bool {
        &&& 0 <= i < self.rows.len()
        &&& (self.rows[i].user.username == username || self.rows[i].user.email == email)
    }

    /// Whether some account has the username or the email address.
    pub open spec fn taken(self, username: Seq<char>, email: Seq<char>) -> bool {
        exists|i: int| self.conflicts(username, email, i)
    }

    /// Whether some account other than `id` has the username or the email address.
    pub open spec fn taken_by_other(self, id: i32, username: Seq<char>, email: Seq<char>) -> bool {
        exists|i: int| self.conflicts(username, email, i) && self.rows[i].user.id != id
    }

    /// The account with identifier `id`, while it is active.
    pub open spec fn active_user(self, id: i32) -> Option<UserView> {
        match self.index_of(id) {
            Some(i) => if self.rows[i].active {
                Some(self.rows[i].user)
            } else {
                None
            },
            None => None,
        }
    }

    /// What `SELECT .. WHERE username = .. AND state = 'active'` answers.
    pub open spec fn active_by_username(self, username: Seq<char>) -> Result<
        UserView,
        StoreFailureView,
    > {
        match self.index_of_username(username) {
            Some(i) => if self.rows[i].active {
                Ok(self.rows[i].user)
            } else {
                Err(StoreFailureView::RowNotFound)
            },
            None => Err(StoreFailureView::RowNotFound),
        }
    }

    /// The table and the answer after `INSERT INTO users .. RETURNING ..`.
    pub open spec fn insert(
        self,
        name: Seq<char>,
        email: Seq<char>,
        username: Seq<char>,
        password: Seq<char>,
        salt: Seq<char>,
        now: u64,
    ) -> (UserTableView, Result<UserView, StoreFailureView>) {
        if self.taken(username, email) {
            (self, Err(unique_violation()))
        } else if self.next_id > i32::MAX {
            (self, Err(out_of_identifiers()))
        } else {
            let user = UserView {
                id: self.next_id as i32,
                name,
                username,
                email,
                password,
                create_at: stamp_of(now),
                update_at: stamp_of(now),
            };
            (
                UserTableView {
                    rows: self.rows.push(UserRowView { user, salt, active: true }),
                    next_id: self.next_id + 1,
                },
                Ok(user),
            )
        }
    }

    /// The table and the answer after `UPDATE users SET email, name,
    /// username, update_at .. WHERE id = .. RETURNING ..`.
    pub open spec fn update_information(
        self,
        id: i32,
        email: Seq<char>,
        name: Seq<char>,
        username: Seq<char>,
        now: u64,
    ) -> (UserTableView, Result<UserView, StoreFailureView>) {
        match self.index_of(id) {
            None => (self, Err(StoreFailureView::RowNotFound)),
            Some(i) => if self.taken_by_other(id, username, email) {
                (self, Err(unique_violation()))
            } else {
                let user = UserView {
                    name,
                    username,
                    email,
                    update_at: stamp_of(now),
                    ..self.rows[i].user
                };
                (
                    UserTableView {
                        rows: self.rows.update(i, UserRowView { user, ..self.rows[i] }),
                        ..self
                    },
                    Ok(user),
                )
            },
        }
    }

    /// The table and the number of rows after `UPDATE users SET password,
    /// salt, update_at .. WHERE id = ..`.
    pub open spec fn update_password(
        self,
        id: i32,
        password: Seq<char>,
        salt: Seq<char>,
        now: u64,
    ) -> (UserTableView, u64) {
        match self.index_of(id) {
            None => (self, 0),
            Some(i) => {
                let user = UserView { password, update_at: stamp_of(now), ..self.rows[i].user };
                (
                    UserTableView {
                        rows: self.rows.update(i, UserRowView { user, salt, ..self.rows[i] }),
                        ..self
                    },
                    1,
                )
            },
        }
    }

    /// The table and the number of rows after `UPDATE users SET state =
    /// 'inactive', update_at .. WHERE id = ..`.
    pub open spec fn deactivate(self, id: i32, now: u64) -> (UserTableView, u64) {
        match self.index_of(id) {
            None => (self, 0),
            Some(i) => {
                let user = UserView { update_at: stamp_of(now), ..self.rows[i].user };
                (
                    UserTableView {
                        rows: self.rows.update(
                            i,
                            UserRowView { user, active: false, ..self.rows[i] },
                        ),
                        ..self
                    },
                    1,
                )
            },
        }
    }
}

/// Two rows that hold the same account are the same row.
pub proof fn lemma_index_of(users: UserTableView, id: i32, i: int)
    requires
        users.wf(),
        users.holds(id, i),
    ensures
        users.index_of(id) == Some(i),
{
    let k = choose|k: int| users.holds(id, k);
    if k < i {
        assert(users.rows[k].user.id != users.rows[i].user.id);
    } else if i < k {
        assert(users.rows[i].user.id != users.rows[k].user.id);
    }
}

/// Two rows that hold the same username are the same row.
pub proof fn lemma_index_of_username(users: UserTableView, username: Seq<char>, i: int)
    requires
        users.wf(),
        users.names(username, i),
    ensures
        users.index_of_username(username) == Some(i),
{
    let k = choose|k: int| users.names(username, k);
    if k < i {
        assert(users.rows[k].user.username != users.rows[i].user.username);
    } else if i < k {
        assert(users.rows[i].user.username != users.rows[k].user.username);
    }
}

/// An insert keeps the table well-formed; the account that was inserted is
/// the last row, found under its identifier and its username, and every
/// other row is as before.
pub proof fn lemma_insert(
    users: UserTableView,
    name: Seq<char>,
    email: Seq<char>,
    username: Seq<char>,
    password: Seq<char>,
    salt: Seq<char>,
    now: u64,
)
    requires
        users.wf(),
    ensures
        ({
            let after = users.insert(name, email, username, password, salt, now);
            let last = users.rows.len() as int;
            &&& after.0.wf()
            &&& after.1 is Err ==> after.0 == users
            &&& after.1 matches Ok(user) ==> {
                &&& after.0.rows == users.rows.push(UserRowView { user, salt, active: true })
                &&& after.0.index_of(user.id) == Some(last)
                &&& after.0.index_of_username(username) == Some(last)
                &&& user.username == username
                &&& user.password == password
            }
        }),
{
    let after = users.insert(name, email, username, password, salt, now);
    if after.1 is Ok {
        let last = users.rows.len() as int;
        assert forall|i: int, j: int| 0 <= i < j < after.0.rows.len() implies {
            &&& after.0.rows[i].user.id != after.0.rows[j].user.id
            &&& after.0.rows[i].user.username != after.0.rows[j].user.username
            &&& after.0.rows[i].user.email != after.0.rows[j].user.email
        } by {
            if j == last {
                assert(!users.conflicts(username, email, i));
                assert(users.rows[i].user.id < users.next_id);
            }
        }
        assert(after.0.holds(after.1->Ok_0.id, last));
        lemma_index_of(after.0, after.1->Ok_0.id, last);
        assert(after.0.names(username, last));
        lemma_index_of_username(after.0, username, last);
    }
}

/// A change of information keeps the table well-formed and every row in
/// its place.
pub proof fn lemma_update_information(
    users: UserTableView,
    id: i32,
    email: Seq<char>,
    name: Seq<char>,
    username: Seq<char>,
    now: u64,
)
    requires
        users.wf(),
    ensures
        ({
            let after = users.update_information(id, email, name, username, now);
            &&& after.0.wf()
            &&& after.0.rows.len() == users.rows.len()
            &&& after.1 is Err ==> after.0 == users
            &&& after.1 matches Ok(user) ==> {
                &&& users.index_of(id) matches Some(i) && after.0.index_of(id) == Some(i)
                    && after.0.rows[i].user == user
                &&& user.id == id
            }
        }),
{
    let after = users.update_information(id, email, name, username, now);
    if after.1 is Ok {
        let i = users.index_of(id)->Some_0;
        assert(users.holds(id, i));
        assert forall|a: int, b: int| 0 <= a < b < after.0.rows.len() implies {
            &&& after.0.rows[a].user.id != after.0.rows[b].user.id
            &&& after.0.rows[a].user.username != after.0.rows[b].user.username
            &&& after.0.rows[a].user.email != after.0.rows[b].user.email
        } by {
            assert(users.rows[a].user.id != users.rows[b].user.id);
            if a == i {
                assert(!(users.conflicts(username, email, b) && users.rows[b].user.id != id));
            } else if b == i {
                assert(!(users.conflicts(username, email, a) && users.rows[a].user.id != id));
            }
        }
        assert(after.0.holds(id, i));
        lemma_index_of(after.0, id, i);
    }
}

/// A change of password keeps the table well-formed and every row in its
/// place; the row of the account holds the new digest and is otherwise as
/// before, but for the moment of the change.
pub proof fn lemma_update_password(
    users: UserTableView,
    id: i32,
    password: Seq<char>,
    salt: Seq<char>,
    now: u64,
)
    requires
        users.wf(),
    ensures
        ({
            let after = users.update_password(id, password, salt, now);
            &&& after.0.wf()
            &&& after.0.rows.len() == users.rows.len()
            &&& users.index_of(id) is None ==> after == (users, 0u64)
            &&& users.index_of(id) matches Some(i) ==> {
                &&& after.1 == 1
                &&& after.0.index_of(id) == Some(i)
                &&& after.0.index_of_username(users.rows[i].user.username) == Some(i)
                &&& after.0.rows[i].user.password == password
                &&& after.0.rows[i].salt == salt
                &&& after.0.rows[i].active == users.rows[i].active
                &&& after.0.rows[i].user.id == id
                &&& forall|j: int|
                    0 <= j < users.rows.len() && j != i ==> after.0.rows[j] == users.rows[j]
            }
        }),
{
    let after = users.update_password(id, password, salt, now);
    if users.index_of(id) is Some {
        let i = users.index_of(id)->Some_0;
        assert(users.holds(id, i));
        assert forall|a: int, b: int| 0 <= a < b < after.0.rows.len() implies {
            &&& after.0.rows[a].user.id != after.0.rows[b].user.id
            &&& after.0.rows[a].user.username != after.0.rows[b].user.username
            &&& after.0.rows[a].user.email != after.0.rows[b].user.email
        } by {
            assert(users.rows[a].user.id != users.rows[b].user.id);
        }
        assert(after.0.holds(id, i));
        lemma_index_of(after.0, id, i);
        assert(after.0.names(users.rows[i].user.username, i));
        lemma_index_of_username(after.0, users.rows[i].user.username, i);
    }
}

/// Deactivating an account keeps the table well-formed and every row in
/// its place; the row of the account is no longer active.
pub proof fn lemma_deactivate(users: UserTableView, id: i32, now: u64)
    requires
        users.wf(),
    ensures
        ({
            let after = users.deactivate(id, now);
            &&& after.0.wf()
            &&& after.0.rows.len() == users.rows.len()
            &&& users.index_of(id) is None ==> after == (users, 0u64)
            &&& users.index_of(id) matches Some(i) ==> {
                &&& after.1 == 1
                &&& after.0.index_of(id) == Some(i)
                &&& after.0.index_of_username(users.rows[i].user.username) == Some(i)
                &&& !after.0.rows[i].active
                &&& forall|j: int|
                    0 <= j < users.rows.len() && j != i ==> after.0.rows[j] == users.rows[j]
            }
        }),
{
    let after = users.deactivate(id, now);
    if users.index_of(id) is Some {
        let i = users.index_of(id)->Some_0;
        assert(users.holds(id, i));
        assert forall|a: int, b: int| 0 <= a < b < after.0.rows.len() implies {
            &&& after.0.rows[a].user.id != after.0.rows[b].user.id
            &&& after.0.rows[a].user.username != after.0.rows[b].user.username
            &&& after.0.rows[a].user.email != after.0.rows[b].user.email
        } by {
            assert(users.rows[a].user.id != users.rows[b].user.id);
        }
        assert(after.0.holds(id, i));
        lemma_index_of(after.0, id, i);
        assert(after.0.names(users.rows[i].user.username, i));
        lemma_index_of_username(after.0, users.rows[i].user.username, i);
    }
}

/// The users table.
pub struct UserTable {
    rows: Vec<UserRow>,
    next_id: i64,
}

impl View for UserTable {
    type V = UserTableView;

    closed spec fn view(&self) -> UserTableView {
        UserTableView {
            rows: Seq::new(self.rows@.len(), |i: int| self.rows@[i]@),
            next_id: self.next_id as int,
        }
    }
}

impl UserTable {
    /// The invariant of the table.
    pub open spec fn wf(&self) -> bool {
        self@.wf()
    }

    /// An empty table whose first account gets the identifier 1.
    pub fn new() -> (table: Self)
        ensures
            table@ == (UserTableView { rows: Seq::empty(), next_id: 1 }),
            table.wf(),
    {
        let table = UserTable { rows: Vec::new(), next_id: 1 };
        assert(table@.rows =~= Seq::<UserRowView>::empty());
        table
    }

    /// The number of accounts, active or not.
    pub fn len(&self) -> (n: usize)
        ensures
            n == self@.rows.len(),
    {
        self.rows.len()
    }

    fn find(&self, id: i32) -> (found: Option<usize>)
        requires
            self.wf(),
        ensures
            match found {
                Some(i) => self@.index_of(id) == Some(i as int),
                None => self@.index_of(id) is None,
            },
    {
        let mut i: usize = 0;
        while i < self.rows.len()
            invariant
                self.wf(),
                i <= self.rows.len(),
                forall|j: int| 0 <= j < i ==> !self@.holds(id, j),
            decreases self.rows.len() - i,
        {
            if self.rows[i].user.id == id {
                proof {
                    lemma_index_of(self@, id, i as int);
                }
                return Some(i);
            }
            i += 1;
        }
        None
    }

    fn find_username(&self, username: &String) -> (found: Option<usize>)
        requires
            self.wf(),
        ensures
            match found {
                Some(i) => self@.index_of_username(username@) == Some(i as int),
                None => self@.index_of_username(username@) is None,
            },
    {
        let mut i: usize = 0;
        while i < self.rows.len()
            invariant
                self.wf(),
                i <= self.rows.len(),
                forall|j: int| 0 <= j < i ==> !self@.names(username@, j),
            decreases self.rows.len() - i,
        {
            if self.rows[i].user.username == *username {
                proof {
                    lemma_index_of_username(self@, username@, i as int);
                }
                return Some(i);
            }
            i += 1;
        }
        None
    }

    fn is_taken(&self, username: &String, email: &String) -> (taken: bool)
        ensures
            taken == self@.taken(username@, email@),
    {
        let mut i: usize = 0;
        while i < self.rows.len()
            invariant
                i <= self.rows.len(),
                forall|j: int| 0 <= j < i ==> !self@.conflicts(username@, email@, j),
            decreases self.rows.len() - i,
        {
            if self.rows[i].user.username == *username || self.rows[i].user.email == *email {
                assert(self@.conflicts(username@, email@, i as int));
                return true;
            }
            i += 1;
        }
        false
    }

    fn is_taken_by_other(&self, id: i32, username: &String, email: &String) -> (taken: bool)
        ensures
            taken == self@.taken_by_other(id, username@, email@),
    {
        let mut i: usize = 0;
        while i < self.rows.len()
            invariant
                i <= self.rows.len(),
                forall|j: int|
                    0 <= j < i ==> !(self@.conflicts(username@, email@, j) && self@.rows[j].user.id
                        != id),
            decreases self.rows.len() - i,
        {
            if self.rows[i].user.id != id && (self.rows[i].user.username == *username
                || self.rows[i].user.email == *email) {
                assert(self@.conflicts(username@, email@, i as int) && self@.rows[i as int].user.id
                    != id);
                return true;
            }
            i += 1;
        }
        false
    }

    /// The account with identifier `id`, while it is active.
    pub fn active_user(&self, id: i32) -> (user: Option<User>)
        requires
            self.wf(),
        ensures
            opt_view(user) == self@.active_user(id),
    {
        match self.find(id) {
            Some(i) => if self.rows[i].active {
                Some(self.rows[i].user.clone())
            } else {
                None
            },
            None => None,
        }
    }

    /// `SELECT .. FROM users WHERE username = .. AND state = 'active'`.
    pub fn active_by_username(&self, username: &String) -> (answer: Result<User, StoreFailure>)
        requires
            self.wf(),
        ensures
            answer_view(answer) == self@.active_by_username(username@),
    {
        match self.find_username(username) {
            Some(i) => if self.rows[i].active {
                Ok(self.rows[i].user.clone())
            } else {
                Err(StoreFailure::RowNotFound)
            },
            None => Err(StoreFailure::RowNotFound),
        }
    }

    /// `INSERT INTO users (name, email, username, password, salt) ..
    /// RETURNING ..`: the new account is active and carries the next
    /// identifier.
    pub fn insert(
        &mut self,
        name: String,
        email: String,
        username: String,
        password: String,
        salt: String,
        now: u64,
    ) -> (answer: Result<User, StoreFailure>)
        requires
            old(self).wf(),
        ensures
            final(self).wf(),
            (final(self)@, answer_view(answer)) == old(self)@.insert(
                name@,
                email@,
                username@,
                password@,
                salt@,
                now,
            ),
    {
        if self.is_taken(&username, &email) {
            return Err(unique_violation_failure());
        }
        if self.next_id > i32::MAX as i64 {
            return Err(out_of_identifiers_failure());
        }
        let user = User {
            id: self.next_id as i32,
            name,
            username,
            email,
            password,
            create_at: timestamp_text(now),
            update_at: timestamp_text(now),
        };
        let answer = user.clone();
        self.rows.push(UserRow { user, salt, active: true });
        self.next_id = self.next_id + 1;
        proof {
            let after = old(self)@.insert(name@, email@, username@, password@, salt@, now).0;
            assert(self@.rows =~= after.rows);
            lemma_insert(old(self)@, name@, email@, username@, password@, salt@, now);
        }
        Ok(answer)
    }

    /// `UPDATE users SET email, name, username, update_at = now WHERE id =
    /// .. RETURNING ..`.
    pub fn update_information(
        &mut self,
        id: i32,
        email: String,
        name: String,
        username: String,
        now: u64,
    ) -> (answer: Result<User, StoreFailure>)
        requires
            old(self).wf(),
        ensures
            final(self).wf(),
            (final(self)@, answer_view(answer)) == old(self)@.update_information(
                id,
                email@,
                name@,
                username@,
                now,
            ),
    {
        let i = match self.find(id) {
            Some(i) => i,
            None => {
                return Err(StoreFailure::RowNotFound);
            },
        };
        if self.is_taken_by_other(id, &username, &email) {
            return Err(unique_violation_failure());
        }
        let user = User {
            id,
            name,
            username,
            email,
            password: self.rows[i].user.password.clone(),
            create_at: clone_opt(&self.rows[i].user.create_at),
            update_at: timestamp_text(now),
        };
        let answer = user.clone();
        let salt = self.rows[i].salt.clone();
        let active = self.rows[i].active;
        self.rows.set(i, UserRow { user, salt, active });
        proof {
            let after = old(self)@.update_information(id, email@, name@, username@, now).0;
            assert(self@.rows =~= after.rows);
            lemma_update_information(old(self)@, id, email@, name@, username@, now);
        }
        Ok(answer)
    }

    /// `UPDATE users SET password, salt, update_at = now WHERE id = ..`.
    pub fn update_password(
        &mut self,
        id: i32,
        password: String,
        salt: String,
        now: u64,
    ) -> (written: Result<u64, StoreFailure>)
        requires
            old(self).wf(),
        ensures
            final(self).wf(),
            final(self)@ == old(self)@.update_password(id, password@, salt@, now).0,
            written == Ok::<u64, StoreFailure>(
                old(self)@.update_password(id, password@, salt@, now).1,
            ),
    {
        let i = match self.find(id) {
            Some(i) => i,
            None => {
                return Ok(0);
            },
        };
        let user = User {
            id,
            name: self.rows[i].user.name.clone(),
            username: self.rows[i].user.username.clone(),
            email: self.rows[i].user.email.clone(),
            password,
            create_at: clone_opt(&self.rows[i].user.create_at),
            update_at: timestamp_text(now),
        };
        let active = self.rows[i].active;
        self.rows.set(i, UserRow { user, salt, active });
        proof {
            let after = old(self)@.update_password(id, password@, salt@, now).0;
            assert(self@.rows =~= after.rows);
            lemma_update_password(old(self)@, id, password@, salt@, now);
        }
        Ok(1)
    }

    /// `UPDATE users SET state = 'inactive', update_at = now WHERE id = ..`.
    pub fn deactivate(&mut self, id: i32, now: u64) -> (written: Result<u64, StoreFailure>)
        requires
            old(self).wf(),
        ensures
            final(self).wf(),
            final(self)@ == old(self)@.deactivate(id, now).0,
            written == Ok::<u64, StoreFailure>(old(self)@.deactivate(id, now).1),
    {
        let i = match self.find(id) {
            Some(i) => i,
            None => {
                return Ok(0);
            },
        };
        let user = User {
            id,
            name: self.rows[i].user.name.clone(),
            username: self.rows[i].user.username.clone(),
            email: self.rows[i].user.email.clone(),
            password: self.rows[i].user.password.clone(),
            create_at: clone_opt(&self.rows[i].user.create_at),
            update_at: timestamp_text(now),
        };
        let salt = self.rows[i].salt.clone();
        self.rows.set(i, UserRow { user, salt, active: false });
        proof {
            let after = old(self)@.deactivate(id, now).0;
            assert(self@.rows =~= after.rows);
            lemma_deactivate(old(self)@, id, now);
        }
        Ok(1)
    }
}

} // verus!
