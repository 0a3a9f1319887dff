//! The tasks table: tasks with unique identifiers, each owned by one user.

use vstd::prelude::*;
use crate::clock::{stamp_of, timestamp_text};
use crate::db::{
    answer_view, out_of_identifiers, out_of_identifiers_failure, StoreFailure, StoreFailureView,
};
use crate::modules::task::{Task, TaskView};
use crate::text::{clone_opt, opt_text};

verus! {

/// The column after `CASE WHEN LENGTH(new) > 0 THEN new ELSE old END`.
pub open spec fn replaced(new: Seq<char>, old: Seq<char>) -> Seq<char> {
    if new.len() > 0 {
        new
    } else {
        old
    }
}

/// The nullable column after `CASE WHEN LENGTH(new) > 0 THEN new ELSE old END`.
pub open spec fn replaced_opt(new: Seq<char>, old: Option<Seq<char>>) -> Option<Seq<char>> {
    if new.len() > 0 {
        Some(new)
    } else {
        old
    }
}

/// The tasks that belong to `user_id`.
pub open spec fn owned_by(user_id: i32) -> spec_fn(TaskView) -> bool {
    |task: TaskView| task.user_id == user_id
}

/// The tasks table with the identifier that the next task gets.
pub struct TaskTableView {
    pub rows: Seq<TaskView>,
    pub next_id: int,
}

impl TaskTableView {
    /// The invariant of the table: identifiers are unique, and every one was
    /// handed out.
    pub open spec fn wf(self) -> bool {
        &&& 1 <= self.next_id <= i32::MAX + 1
        &&& forall|i: int|
            0 <= i < self.rows.len() ==> 1 <= (#[trigger] self.rows[i]).id < self.next_id
        &&& forall|i: int, j: int|
            0 <= i < j < self.rows.len() ==> self.rows[i].id != self.rows[j].id
    }

    /// Whether row `i` holds the task `id` of the user `user_id`.
    pub open spec fn holds(self, id: i32, user_id: i32, i: int) -> bool {
        0 <= i < self.rows.len() && self.rows[i].id == id && self.rows[i].user_id == user_id
    }

    /// The row that holds the task `id` of the user `user_id`, if there is one.
    pub open spec fn index_of(self, id: i32, user_id: i32) -> Option<int> {
        if exists|i: int| self.holds(id, user_id, i) {
            Some(choose|i: int| self.holds(id, user_id, i))
        } else {
            None
        }
    }

    /// What `SELECT .. FROM tasks WHERE user_id = ..` answers: the user's
    /// tasks in the order in which they were created.
    pub open spec fn of_user(self, user_id: i32) -> Seq<TaskView> {
        self.rows.filter(owned_by(user_id))
    }

    /// The table and the answer after `INSERT INTO tasks .. RETURNING ..`.
    pub open spec fn insert(
        self,
        user_id: i32,
        title: Seq<char>,
        body: Seq<char>,
        state: Seq<char>,
        priority: Seq<char>,
        now: u64,
    ) -> (TaskTableView, Result<TaskView, StoreFailureView>) {
        if self.next_id > i32::MAX {
            (self, Err(out_of_identifiers()))
        } else {
            let task = TaskView {
                id: self.next_id as i32,
                user_id,
                title,
                body: Some(body),
                state,
                priority,
                created_at: stamp_of(now),
                updated_at: stamp_of(now),
            };
            (TaskTableView { rows: self.rows.push(task), next_id: self.next_id + 1 }, Ok(task))
        }
    }

    /// The table and the answer after `UPDATE tasks SET .. WHERE user_id =
    /// .. AND id = .. RETURNING ..`: an empty text keeps the column, and
    /// `touch` moves `updated_at` to `now`.
    pub open spec fn update(
        self,
        id: i32,
        user_id: i32,
        title: Seq<char>,
        body: Seq<char>,
        state: Seq<char>,
        priority: Seq<char>,
        touch: bool,
        now: u64,
    ) -> (TaskTableView, Result<TaskView, StoreFailureView>) {
        match self.index_of(id, user_id) {
            None => (self, Err(StoreFailureView::RowNotFound)),
            Some(i) => {
                let old = self.rows[i];
                let task = TaskView {
                    title: replaced(title, old.title),
                    body: replaced_opt(body, old.body),
                    state: replaced(state, old.state),
                    priority: replaced(priority, old.priority),
                    updated_at: if touch {
                        stamp_of(now)
                    } else {
                        old.updated_at
                    },
                    ..old
                };
                (TaskTableView { rows: self.rows.update(i, task), ..self }, Ok(task))
            },
        }
    }

    /// The table and the number of rows after `DELETE FROM tasks WHERE id =
    /// .. AND user_id = ..`.
    pub open spec fn delete(self, id: i32, user_id: i32) -> (TaskTableView, u64) {
        match self.index_of(id, user_id) {
            None => (self, 0),
            Some(i) => (TaskTableView { rows: self.rows.remove(i), ..self }, 1),
        }
    }
}

/// Two rows that hold the same task are the same row.
pub proof fn lemma_task_index_of(tasks: TaskTableView, id: i32, user_id: i32, i: int)
    requires
        tasks.wf(),
        tasks.holds(id, user_id, i),
    ensures
        tasks.index_of(id, user_id) == Some(i),
{
    let k = choose|k: int| tasks.holds(id, user_id, k);
    if k < i {
        assert(tasks.rows[k].id != tasks.rows[i].id);
    } else if i < k {
        assert(tasks.rows[i].id != tasks.rows[k].id);
    }
}

/// An insert keeps the table well-formed.
pub proof fn lemma_task_insert(
    tasks: TaskTableView,
    user_id: i32,
    title: Seq<char>,
    body: Seq<char>,
    state: Seq<char>,
    priority: Seq<char>,
    now: u64,
)
    requires
        tasks.wf(),
    ensures
        tasks.insert(user_id, title, body, state, priority, now).0.wf(),
{
    let after = tasks.insert(user_id, title, body, state, priority, now).0;
    assert forall|i: int, j: int| 0 <= i < j < after.rows.len() implies after.rows[i].id
        != after.rows[j].id by {
        if j == tasks.rows.len() {
            assert(tasks.rows[i].id < tasks.next_id);
        }
    }
}

/// A change of a task keeps the table well-formed.
pub proof fn lemma_task_update(
    tasks: TaskTableView,
    id: i32,
    user_id: i32,
    title: Seq<char>,
    body: Seq<char>,
    state: Seq<char>,
    priority: Seq<char>,
    touch: bool,
    now: u64,
)
    requires
        tasks.wf(),
    ensures
        tasks.update(id, user_id, title, body, state, priority, touch, now).0.wf(),
{
    let after = tasks.update(id, user_id, title, body, state, priority, touch, now).0;
    if tasks.index_of(id, user_id) is Some {
        let i = tasks.index_of(id, user_id)->Some_0;
        assert(tasks.holds(id, user_id, i));
        assert forall|a: int, b: int| 0 <= a < b < after.rows.len() implies after.rows[a].id
            != after.rows[b].id by {
            assert(tasks.rows[a].id != tasks.rows[b].id);
        }
    }
}

/// Deleting a task keeps the table well-formed.
pub proof fn lemma_task_delete(tasks: TaskTableView, id: i32, user_id: i32)
    requires
        tasks.wf(),
    ensures
        tasks.delete(id, user_id).0.wf(),
{
    let after = tasks.delete(id, user_id).0;
    if tasks.index_of(id, user_id) is Some {
        let k = tasks.index_of(id, user_id)->Some_0;
        assert(tasks.holds(id, user_id, k));
        assert forall|i: int| 0 <= i < after.rows.len() implies 1 <= (
        #[trigger] after.rows[i]).id < after.next_id by {
            let a = if i < k { i } else { i + 1 };
            assert(after.rows[i] == tasks.rows[a]);
        }
        assert forall|i: int, j: int| 0 <= i < j < after.rows.len() implies after.rows[i].id
            != after.rows[j].id by {
            let a = if i < k { i } else { i + 1 };
            let b = if j < k { j } else { j + 1 };
            assert(tasks.rows[a].id != tasks.rows[b].id);
        }
    }
}

/// The tasks table.
pub struct TaskTable {
    rows: Vec<Task>,
    next_id: i64,
}

impl View for TaskTable {
    type V = TaskTableView;

    closed spec fn view(&self) -> TaskTableView {
        TaskTableView {
            rows: Seq::new(self.rows@.len(), |i: int| self.rows@[i]@),
            next_id: self.next_id as int,
        }
    }
}

fn replace_text(new: String, old: &String) -> (text: String)
    ensures
        text@ == replaced(new@, old@),
{
    if new.as_str().is_empty() {
        old.clone()
    } else {
        new
    }
}

fn replace_opt_text(new: String, old: &Option<String>) -> (text: Option<String>)
    ensures
        opt_text(text) == replaced_opt(new@, opt_text(*old)),
{
    if new.as_str().is_empty() {
        clone_opt(old)
    } else {
        Some(new)
    }
}

impl TaskTable {
    /// The invariant of the table.
    pub open spec fn wf(&self) -> bool {
        self@.wf()
    }

    /// An empty table whose first task gets the identifier 1.
    pub fn new() -> (table: Self)
        ensures
            table@ == (TaskTableView { rows: Seq::empty(), next_id: 1 }),
            table.wf(),
    {
        let table = TaskTable { rows: Vec::new(), next_id: 1 };
        assert(table@.rows =~= Seq::<TaskView>::empty());
        table
    }

    /// The number of tasks of all users.
    pub fn len(&self) -> (n: usize)
        ensures
            n == self@.rows.len(),
    {
        self.rows.len()
    }

    fn find(&self, id: i32, user_id: i32) -> (found: Option<usize>)
        requires
            self.wf(),
        ensures
            match found {
                Some(i) => self@.index_of(id, user_id) == Some(i as int),
                None => self@.index_of(id, user_id) is None,
            },
    {
        let mut i: usize = 0;
        while i < self.rows.len()
            invariant
                self.wf(),
                i <= self.rows.len(),
                forall|j: int| 0 <= j < i ==> !self@.holds(id, user_id, j),
            decreases self.rows.len() - i,
        {
            if self.rows[i].id == id && self.rows[i].user_id == user_id {
                proof {
                    lemma_task_index_of(self@, id, user_id, i as int);
                }
                return Some(i);
            }
            i += 1;
        }
        None
    }

    /// `INSERT INTO tasks (user_id, title, body, state, priority) ..
    /// RETURNING ..`: the new task carries the next identifier.
    pub fn insert(
        &mut self,
        user_id: i32,
        title: String,
        body: String,
        state: String,
        priority: String,
        now: u64,
    ) -> (answer: Result<Task, StoreFailure>)
        requires
            old(self).wf(),
        ensures
            final(self).wf(),
            (final(self)@, answer_view(answer)) == old(self)@.insert(
                user_id,
                title@,
                body@,
                state@,
                priority@,
                now,
            ),
    {
        if self.next_id > i32::MAX as i64 {
            return Err(out_of_identifiers_failure());
        }
        let task = Task {
            id: self.next_id as i32,
            user_id,
            title,
            body: Some(body),
            state,
            priority,
            created_at: timestamp_text(now),
            updated_at: timestamp_text(now),
        };
        let answer = task.clone();
        self.rows.push(task);
        self.next_id = self.next_id + 1;
        proof {
            let after = old(self)@.insert(user_id, title@, body@, state@, priority@, now).0;
            assert(self@.rows =~= after.rows);
            lemma_task_insert(old(self)@, user_id, title@, body@, state@, priority@, now);
        }
        Ok(answer)
    }

    /// `SELECT .. FROM tasks WHERE user_id = ..`.
    pub fn of_user(&self, user_id: i32) -> (answer: Result<Vec<Task>, StoreFailure>)
        ensures
            answer matches Ok(tasks) && task_views(tasks@) == self@.of_user(user_id),
    {
        let mut found: Vec<Task> = Vec::new();
        let mut i: usize = 0;
        assert(self@.rows.take(0) =~= Seq::<TaskView>::empty());
        assert(task_views(found@) =~= self@.rows.take(0).filter(owned_by(user_id)));
        while i < self.rows.len()
            invariant
                i <= self.rows.len(),
                task_views(found@) == self@.rows.take(i as int).filter(owned_by(user_id)),
            decreases self.rows.len() - i,
        {
            proof {
                self@.rows.lemma_take_succ_push(i as int);
                self@.rows.take(i as int).lemma_filter_push(
                    self@.rows[i as int],
                    owned_by(user_id),
                );
            }
            if self.rows[i].user_id == user_id {
                found.push(self.rows[i].clone());
                assert(task_views(found@) =~= self@.rows.take(i as int).filter(
                    owned_by(user_id),
                ).push(self@.rows[i as int]));
            }
            i += 1;
        }
        assert(self@.rows.take(i as int) =~= self@.rows);
        Ok(found)
    }

    /// `UPDATE tasks SET .. WHERE user_id = .. AND id = .. RETURNING ..`.
    pub fn update(
        &mut self,
        id: i32,
        user_id: i32,
        title: String,
        body: String,
        state: String,
        priority: String,
        touch: bool,
        now: u64,
    ) -> (answer: Result<Task, StoreFailure>)
        requires
            old(self).wf(),
        ensures
            final(self).wf(),
            (final(self)@, answer_view(answer)) == old(self)@.update(
                id,
                user_id,
                title@,
                body@,
                state@,
                priority@,
                touch,
                now,
            ),
    {
        let i = match self.find(id, user_id) {
            Some(i) => i,
            None => {
                return Err(StoreFailure::RowNotFound);
            },
        };
        let task = Task {
            id,
            user_id,
            title: replace_text(title, &self.rows[i].title),
            body: replace_opt_text(body, &self.rows[i].body),
            state: replace_text(state, &self.rows[i].state),
            priority: replace_text(priority, &self.rows[i].priority),
            created_at: clone_opt(&self.rows[i].created_at),
            updated_at: if touch {
                timestamp_text(now)
            } else {
                clone_opt(&self.rows[i].updated_at)
            },
        };
        let answer = task.clone();
        self.rows.set(i, task);
        proof {
            let after = old(self)@.update(
                id,
                user_id,
                title@,
                body@,
                state@,
                priority@,
                touch,
                now,
            ).0;
            assert(self@.rows =~= after.rows);
            lemma_task_update(
                old(self)@,
                id,
                user_id,
                title@,
                body@,
                state@,
                priority@,
                touch,
                now,
            );
        }
        Ok(answer)
    }

    /// `DELETE FROM tasks WHERE id = .. AND user_id = ..`.
    pub fn delete(&mut self, id: i32, user_id: i32) -> (deleted: Result<u64, StoreFailure>)
        requires
            old(self).wf(),
        ensures
            final(self).wf(),
            final(self)@ == old(self)@.delete(id, user_id).0,
            deleted == Ok::<u64, StoreFailure>(old(self)@.delete(id, user_id).1),
    {
        match self.find(id, user_id) {
            Some(i) => {
                self.rows.remove(i);
                assert(self@.rows =~= old(self)@.delete(id, user_id).0.rows);
                proof {
                    lemma_task_delete(old(self)@, id, user_id);
                }
                Ok(1)
            },
            None => Ok(0),
        }
    }
}

/// The views of a list of tasks.
pub open spec fn task_views(tasks: Seq<Task>) -> Seq<TaskView> {
    Seq::new(tasks.len(), |i: int| tasks[i]@)
}

} // verus!
