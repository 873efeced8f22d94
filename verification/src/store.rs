//! The persistence model: tasks, migration bookkeeping rows, and the schema
//! state they live in.
//!
//! `Store` is an explicit model of the relational store the application sits
//! on: a task table `(id, content, active)`, a migration table of unique
//! names, and two schema facts (does the task table exist, does its `active`
//! column exist) that the migration engine evolves. Every operation states
//! exactly when it succeeds and what the store looks like afterwards.

use vstd::prelude::*;

verus! {

/// A persisted to-do item: a stable unique id, free text, and an
/// active/completed flag. Completion is a soft delete: the row keeps its id
/// and content and only `active` flips to false.
#[derive(Debug)]
pub struct Task {
    pub id: u64,
    pub content: String,
    pub active: bool,
}

/// The mathematical value of a `Task`: the same fields with the text as a
/// sequence of characters.
#[verifier::ext_equal]
pub struct TaskModel {
    pub id: u64,
    pub content: Seq<char>,
    pub active: bool,
}

impl View for Task {
    type V = TaskModel;

    open spec fn view(&self) -> TaskModel {
        TaskModel { id: self.id, content: self.content@, active: self.active }
    }
}

impl Clone for Task {
    fn clone(&self) -> (r: Self)
        ensures
            r@ == self@,
    {
        Task { id: self.id, content: self.content.clone(), active: self.active }
    }
}

/// Why a store operation failed. The model store has no I/O, so every failure
/// is a schema or constraint violation.
#[derive(PartialEq, Eq, Structural, Clone, Copy, Debug)]
pub enum StoreError {
    /// A statement touched a table that has not been created yet.
    MissingTable,
    /// A statement touched the `active` column before the migration that adds
    /// it has run.
    MissingColumn,
    /// A schema change tried to add a column that already exists.
    DuplicateColumn,
    /// A migration name was recorded twice; the uniqueness constraint on the
    /// migration table rejects the second insert.
    DuplicateName,
}

/// The mathematical value of a `Store`.
#[verifier::ext_equal]
pub struct StoreModel {
    pub tasks: Seq<TaskModel>,
    pub migrations: Seq<Seq<char>>,
    pub next_id: u64,
    pub todo_table: bool,
    pub active_column: bool,
    pub migration_table: bool,
}

/// The active rows of a task sequence, in order.
pub open spec fn active_seq(ts: Seq<TaskModel>) -> Seq<TaskModel> {
    ts.filter(|t: TaskModel| t.active)
}

/// The active tasks of a store, in stored (ascending-id) order.
pub open spec fn active_tasks(s: StoreModel) -> Seq<TaskModel> {
    active_seq(s.tasks)
}

/// The store after a successful `create`: one new row, active, carrying the
/// given content and the next fresh id.
pub open spec fn create_model(s: StoreModel, content: Seq<char>) -> StoreModel {
    StoreModel {
        tasks: s.tasks.push(TaskModel { id: s.next_id, content, active: true }),
        next_id: (s.next_id + 1) as u64,
        ..s
    }
}

/// The store after a successful `complete`: every row whose id matches is
/// marked inactive; nothing else moves. Completing an absent or already
/// inactive id changes nothing.
pub open spec fn complete_model(s: StoreModel, id: u64) -> StoreModel {
    StoreModel {
        tasks: s.tasks.map_values(
            |t: TaskModel|
                if t.id == id {
                    TaskModel { active: false, ..t }
                } else {
                    t
                },
        ),
        ..s
    }
}

/// A model of the single relational store behind the application.
///
/// Rows live in `tasks` in insertion order; `next_id` is the id the next
/// created row will get; `migrations` are the recorded migration names in
/// application order. The three booleans are the schema facts the migration
/// engine manipulates.
pub struct Store {
    tasks: Vec<Task>,
    migrations: Vec<String>,
    next_id: u64,
    todo_table: bool,
    active_column: bool,
    migration_table: bool,
}

/// The view of a sequence of tasks.
pub open spec fn tasks_view(ts: Seq<Task>) -> Seq<TaskModel> {
    ts.map_values(|t: Task| t@)
}

/// The view of a sequence of strings.
pub open spec fn strings_view(ss: Seq<String>) -> Seq<Seq<char>> {
    ss.map_values(|s: String| s@)
}

impl View for Store {
    type V = StoreModel;

    closed spec fn view(&self) -> StoreModel {
        StoreModel {
            tasks: tasks_view(self.tasks@),
            migrations: strings_view(self.migrations@),
            next_id: self.next_id,
            todo_table: self.todo_table,
            active_column: self.active_column,
            migration_table: self.migration_table,
        }
    }
}

/// Structural well-formedness of a store: ids strictly increase along the row
/// sequence (so retrieval order is ascending-id order and ids are unique),
/// every id is below the next one to be assigned, and rows can only exist
/// once the task table does.
pub open spec fn store_wf(s: StoreModel) -> bool {
    &&& forall|i: int, j: int|
        0 <= i < j < s.tasks.len() ==> #[trigger] s.tasks[i].id < #[trigger] s.tasks[j].id
    &&& forall|i: int| 0 <= i < s.tasks.len() ==> #[trigger] s.tasks[i].id < s.next_id
    &&& s.tasks.len() > 0 ==> s.todo_table
}

impl Store {
    /// The well-formedness invariant every operation preserves.
    pub open spec fn wf(&self) -> bool {
        store_wf(self@)
    }

    /// A fresh, empty store: no tables, no rows, ids start at zero.
    pub fn new() -> (s: Store)
        ensures
            s.wf(),
            s@ == (StoreModel {
                tasks: Seq::<TaskModel>::empty(),
                migrations: Seq::<Seq<char>>::empty(),
                next_id: 0,
                todo_table: false,
                active_column: false,
                migration_table: false,
            }),
    {
        let s = Store {
            tasks: Vec::new(),
            migrations: Vec::new(),
            next_id: 0,
            todo_table: false,
            active_column: false,
            migration_table: false,
        };
        proof {
            assert(tasks_view(s.tasks@) =~= Seq::<TaskModel>::empty());
            assert(strings_view(s.migrations@) =~= Seq::<Seq<char>>::empty());
            assert(s@ =~= (StoreModel {
                tasks: Seq::<TaskModel>::empty(),
                migrations: Seq::<Seq<char>>::empty(),
                next_id: 0,
                todo_table: false,
                active_column: false,
                migration_table: false,
            }));
        }
        s
    }

    /// Idempotently ensure the migration table exists. Never fails; nothing
    /// but the schema fact changes, and recorded rows survive.
    pub fn bootstrap_migration_table(&mut self) -> (r: Result<(), StoreError>)
        requires
            old(self).wf(),
        ensures
            final(self).wf(),
            r is Ok,
            final(self)@ == (StoreModel { migration_table: true, ..old(self)@ }),
    {
        self.migration_table = true;
        proof {
            assert(self@ =~= (StoreModel { migration_table: true, ..old(self)@ }));
        }
        Ok(())
    }

    /// How many migrations have been recorded. Fails exactly when the
    /// migration table does not exist yet.
    pub fn applied_migration_count(&self) -> (r: Result<usize, StoreError>)
        ensures
            self@.migration_table ==> r is Ok && r->Ok_0 == self@.migrations.len(),
            !self@.migration_table ==> r == Err::<usize, StoreError>(StoreError::MissingTable),
    {
        if self.migration_table {
            Ok(self.migrations.len())
        } else {
            Err(StoreError::MissingTable)
        }
    }

    /// The recorded migration names, in application order; each returned
    /// name is a copy of the stored one. Fails exactly when the migration
    /// table does not exist yet.
    pub fn applied_migrations(&self) -> (r: Result<Vec<String>, StoreError>)
        ensures
            self@.migration_table ==> r is Ok && strings_view(r->Ok_0@) == self@.migrations,
            !self@.migration_table ==> r == Err::<Vec<String>, StoreError>(
                StoreError::MissingTable,
            ),
    {
        if !self.migration_table {
            return Err(StoreError::MissingTable);
        }
        let mut out: Vec<String> = Vec::new();
        let mut i: usize = 0;
        while i < self.migrations.len()
            invariant
                i <= self.migrations@.len(),
                out@.len() == i,
                forall|k: int| 0 <= k < i ==> #[trigger] out@[k]@ == self@.migrations[k],
            decreases self.migrations@.len() - i,
        {
            let name = self.migrations[i].clone();
            out.push(name);
            i += 1;
        }
        proof {
            assert(strings_view(out@) =~= self@.migrations);
        }
        Ok(out)
    }

    /// Idempotently create the task table. Never fails.
    pub fn create_todo_table(&mut self) -> (r: Result<(), StoreError>)
        requires
            old(self).wf(),
        ensures
            final(self).wf(),
            r is Ok,
            final(self)@ == (StoreModel { todo_table: true, ..old(self)@ }),
    {
        self.todo_table = true;
        proof {
            assert(self@ =~= (StoreModel { todo_table: true, ..old(self)@ }));
        }
        Ok(())
    }

    /// Add the `active` column to the task table. Fails when the task table
    /// is missing, or when the column is already there (adding an existing
    /// column is a schema error, which is why the migration engine must never
    /// run this body twice).
    pub fn add_active_column(&mut self) -> (r: Result<(), StoreError>)
        requires
            old(self).wf(),
        ensures
            final(self).wf(),
            !old(self)@.todo_table ==> r == Err::<(), StoreError>(StoreError::MissingTable)
                && final(self)@ == old(self)@,
            old(self)@.todo_table && old(self)@.active_column ==> r == Err::<(),
                StoreError,
            >(StoreError::DuplicateColumn) && final(self)@ == old(self)@,
            old(self)@.todo_table && !old(self)@.active_column ==> r is Ok && final(self)@ == (StoreModel {
                active_column: true,
                ..old(self)@
            }),
    {
        if !self.todo_table {
            proof {
                assert(self@ =~= old(self)@);
            }
            Err(StoreError::MissingTable)
        } else if self.active_column {
            proof {
                assert(self@ =~= old(self)@);
            }
            Err(StoreError::DuplicateColumn)
        } else {
            self.active_column = true;
            proof {
                assert(self@ =~= (StoreModel { active_column: true, ..old(self)@ }));
            }
            Ok(())
        }
    }

    /// Record one applied migration name. Fails when the migration table is
    /// missing, and with `DuplicateName` when the name is already recorded;
    /// on success the name is appended to the application order.
    pub fn record_migration(&mut self, name: &str) -> (r: Result<(), StoreError>)
        requires
            old(self).wf(),
        ensures
            final(self).wf(),
            !old(self)@.migration_table ==> r == Err::<(), StoreError>(StoreError::MissingTable)
                && final(self)@ == old(self)@,
            old(self)@.migration_table && old(self)@.migrations.contains(name@) ==> r == Err::<(),
                StoreError,
            >(StoreError::DuplicateName) && final(self)@ == old(self)@,
            old(self)@.migration_table && !old(self)@.migrations.contains(name@) ==> r is Ok
                && final(self)@ == (StoreModel {
                migrations: old(self)@.migrations.push(name@),
                ..old(self)@
            }),
    {
        if !self.migration_table {
            proof {
                assert(self@ =~= old(self)@);
            }
            return Err(StoreError::MissingTable);
        }
        let owned = String::from_str(name);
        let mut i: usize = 0;
        while i < self.migrations.len()
            invariant
                old(self).wf(),
                old(self)@.migration_table,
                i <= self.migrations@.len(),
                owned@ == name@,
                forall|k: int| 0 <= k < i ==> self@.migrations[k] != name@,
                self == old(self),
            decreases self.migrations@.len() - i,
        {
            if self.migrations[i] == owned {
                proof {
                    assert(self@.migrations[i as int] == name@);
                    assert(self@ =~= old(self)@);
                }
                return Err(StoreError::DuplicateName);
            }
            i += 1;
        }
        proof {
            assert(forall|k: int|
                0 <= k < old(self)@.migrations.len() ==> old(self)@.migrations[k] != name@);
            assert(!old(self)@.migrations.contains(name@));
        }
        self.migrations.push(owned);
        proof {
            assert(strings_view(self.migrations@) =~= strings_view(old(self).migrations@).push(
                name@,
            ));
            assert(self@ =~= (StoreModel {
                migrations: old(self)@.migrations.push(name@),
                ..old(self)@
            }));
        }
        Ok(())
    }

    /// Insert a new task with the given content; it becomes active and gets
    /// the next fresh id. Fails exactly when the task table is missing.
    pub fn create(&mut self, content: String) -> (r: Result<(), StoreError>)
        requires
            old(self).wf(),
            old(self)@.next_id < u64::MAX,
        ensures
            final(self).wf(),
            !old(self)@.todo_table ==> r == Err::<(), StoreError>(StoreError::MissingTable)
                && final(self)@ == old(self)@,
            old(self)@.todo_table ==> r is Ok && final(self)@ == create_model(
                old(self)@,
                content@,
            ),
    {
        if !self.todo_table {
            proof {
                assert(self@ =~= old(self)@);
            }
            return Err(StoreError::MissingTable);
        }
        let ghost c: Seq<char> = content@;
        let id = self.next_id;
        self.tasks.push(Task { id, content, active: true });
        self.next_id = id + 1;
        proof {
            assert(tasks_view(self.tasks@) =~= tasks_view(old(self).tasks@).push(
                TaskModel { id, content: c, active: true },
            ));
            assert(self@ =~= create_model(old(self)@, c));
        }
        Ok(())
    }

    /// Mark the task with the given id inactive (a soft delete). Affecting
    /// zero rows — an absent or already completed id — is not an error. Fails
    /// exactly when the task table or the `active` column is missing.
    pub fn complete(&mut self, id: u64) -> (r: Result<(), StoreError>)
        requires
            old(self).wf(),
        ensures
            final(self).wf(),
            !old(self)@.todo_table ==> r == Err::<(), StoreError>(StoreError::MissingTable)
                && final(self)@ == old(self)@,
            old(self)@.todo_table && !old(self)@.active_column ==> r == Err::<(),
                StoreError,
            >(StoreError::MissingColumn) && final(self)@ == old(self)@,
            old(self)@.todo_table && old(self)@.active_column ==> r is Ok && final(self)@
                == complete_model(old(self)@, id),
    {
        if !self.todo_table {
            proof {
                assert(self@ =~= old(self)@);
            }
            return Err(StoreError::MissingTable);
        }
        if !self.active_column {
            proof {
                assert(self@ =~= old(self)@);
            }
            return Err(StoreError::MissingColumn);
        }
        let n = self.tasks.len();
        let mut i: usize = 0;
        while i < n
            invariant
                old(self).wf(),
                old(self)@.todo_table,
                old(self)@.active_column,
                n == old(self).tasks@.len(),
                i <= n,
                self.tasks@.len() == n,
                forall|k: int|
                    i <= k < n ==> #[trigger] self.tasks@[k] == old(self).tasks@[k],
                forall|k: int|
                    0 <= k < i ==> #[trigger] self.tasks@[k]@ == (if old(
                        self,
                    ).tasks@[k]@.id == id {
                        TaskModel { active: false, ..old(self).tasks@[k]@ }
                    } else {
                        old(self).tasks@[k]@
                    }),
                self.migrations == old(self).migrations,
                self.next_id == old(self).next_id,
                self.todo_table == old(self).todo_table,
                self.active_column == old(self).active_column,
                self.migration_table == old(self).migration_table,
            decreases n - i,
        {
            if self.tasks[i].id == id {
                self.tasks[i].active = false;
            }
            i += 1;
        }
        proof {
            assert(tasks_view(self.tasks@) =~= old(self)@.tasks.map_values(
                |t: TaskModel|
                    if t.id == id {
                        TaskModel { active: false, ..t }
                    } else {
                        t
                    },
            ));
            assert(self@ =~= complete_model(old(self)@, id));
        }
        Ok(())
    }

    /// All active tasks in stored (ascending-id) order; each returned row is
    /// a copy of the stored one. Fails exactly when the task table or the
    /// `active` column is missing. Side-effect-free.
    pub fn list_active(&self) -> (r: Result<Vec<Task>, StoreError>)
        ensures
            !self@.todo_table ==> r == Err::<Vec<Task>, StoreError>(StoreError::MissingTable),
            self@.todo_table && !self@.active_column ==> r == Err::<Vec<Task>,
                StoreError,
            >(StoreError::MissingColumn),
            self@.todo_table && self@.active_column ==> r is Ok && tasks_view(r->Ok_0@)
                == active_tasks(self@),
    {
        if !self.todo_table {
            return Err(StoreError::MissingTable);
        }
        if !self.active_column {
            return Err(StoreError::MissingColumn);
        }
        let ghost all: Seq<TaskModel> = self@.tasks;
        let ghost pred = |t: TaskModel| t.active;
        let mut out: Vec<Task> = Vec::new();
        let mut i: usize = 0;
        proof {
            assert(tasks_view(out@) =~= all.take(0).filter(pred)) by {
                reveal(Seq::filter);
                assert(all.take(0).len() == 0);
            }
        }
        while i < self.tasks.len()
            invariant
                all == self@.tasks,
                pred == (|t: TaskModel| t.active),
                i <= self.tasks@.len(),
                tasks_view(out@) == all.take(i as int).filter(pred),
            decreases self.tasks@.len() - i,
        {
            let ghost prev: Seq<Task> = out@;
            if self.tasks[i].active {
                let t = self.tasks[i].clone();
                out.push(t);
            }
            proof {
                let j = i as int;
                assert(all.take(j + 1).drop_last() =~= all.take(j));
                assert(all.take(j + 1).last() == all[j]);
                reveal(Seq::filter);
                if all[j].active {
                    assert(tasks_view(out@) =~= tasks_view(prev).push(all[j]));
                }
                assert(tasks_view(out@) =~= all.take(j + 1).filter(pred));
            }
            i += 1;
        }
        proof {
            assert(all.take(self.tasks@.len() as int) =~= all);
        }
        Ok(out)
    }

    /// Direct id lookup, ignoring the `active` flag: the row with the given
    /// id if one exists. Soft-deleted rows are still found.
    pub fn find_by_id(&self, id: u64) -> (r: Option<&Task>)
        ensures
            (r is Some) <==> (exists|k: int|
                0 <= k < self@.tasks.len() && #[trigger] self@.tasks[k].id == id),
            r matches Some(t) ==> self@.tasks.contains(t@) && t@.id == id,
    {
        let mut i: usize = 0;
        while i < self.tasks.len()
            invariant
                i <= self.tasks@.len(),
                forall|k: int| 0 <= k < i ==> #[trigger] self@.tasks[k].id != id,
            decreases self.tasks@.len() - i,
        {
            if self.tasks[i].id == id {
                proof {
                    assert(self@.tasks[i as int].id == id);
                    assert(self@.tasks.contains(self@.tasks[i as int]));
                }
                return Some(&self.tasks[i]);
            }
            i += 1;
        }
        None
    }
}

/// Every element kept by the `active` filter comes from the underlying rows,
/// so a row property that holds of every active row holds of every element
/// of the filtered view.
proof fn lemma_active_filter_excludes(s: Seq<TaskModel>, id: u64)
    requires
        forall|k: int| 0 <= k < s.len() ==> (#[trigger] s[k].active ==> s[k].id != id),
    ensures
        forall|j: int|
            0 <= j < active_seq(s).len() ==> #[trigger] active_seq(s)[j].id != id,
    decreases s.len(),
{
    reveal(Seq::filter);
    if s.len() > 0 {
        let pred = |t: TaskModel| t.active;
        assert(active_seq(s) == s.filter(pred));
        assert(forall|k: int|
            0 <= k < s.drop_last().len() ==> (#[trigger] s.drop_last()[k].active
                ==> s.drop_last()[k].id != id)) by {
            assert(forall|k: int|
                0 <= k < s.drop_last().len() ==> s.drop_last()[k] == s[k]);
        }
        lemma_active_filter_excludes(s.drop_last(), id);
        let sub = s.drop_last().filter(pred);
        assert(sub == active_seq(s.drop_last()));
        if pred(s.last()) {
            assert(s.filter(pred) == sub.push(s.last()));
            assert(s.last() == s[s.len() - 1]);
            assert(s.last().id != id);
            assert forall|j: int|
                0 <= j < active_seq(s).len() implies #[trigger] active_seq(s)[j].id != id by {
                if j < active_seq(s).len() - 1 {
                    assert(active_seq(s)[j] == sub[j]);
                    assert(active_seq(s.drop_last())[j].id != id);
                } else {
                    assert(active_seq(s)[j] == s.last());
                }
            }
        } else {
            assert(s.filter(pred) == sub);
            assert forall|j: int|
                0 <= j < active_seq(s).len() implies #[trigger] active_seq(s)[j].id != id by {
                assert(active_seq(s)[j] == sub[j]);
                assert(active_seq(s.drop_last())[j].id != id);
            }
        }
    }
}

/// Soft delete, as a law over the store model: completing the task at row
/// `k` removes its id from the active view entirely, while the row itself
/// survives with the same id and content and `active` false. No row is
/// added or dropped.
pub proof fn lemma_soft_delete(s: StoreModel, id: u64, k: int)
    requires
        store_wf(s),
        0 <= k < s.tasks.len(),
        s.tasks[k].id == id,
    ensures
        store_wf(complete_model(s, id)),
        complete_model(s, id).tasks.len() == s.tasks.len(),
        complete_model(s, id).tasks[k].id == id,
        complete_model(s, id).tasks[k].content == s.tasks[k].content,
        !complete_model(s, id).tasks[k].active,
        forall|j: int|
            0 <= j < active_tasks(complete_model(s, id)).len() ==> #[trigger] active_tasks(
                complete_model(s, id),
            )[j].id != id,
{
    let cs = complete_model(s, id);
    assert(forall|j: int|
        0 <= j < cs.tasks.len() ==> (#[trigger] cs.tasks[j].active ==> cs.tasks[j].id != id));
    lemma_active_filter_excludes(cs.tasks, id);
}

/// Add round-trip, as a law over the store model: creating a task appends
/// exactly one row to the active view — active, carrying the given content,
/// under an id no existing row has — and disturbs no other row.
pub proof fn lemma_add_round_trip(s: StoreModel, content: Seq<char>)
    requires
        store_wf(s),
        s.todo_table,
        s.next_id < u64::MAX,
    ensures
        store_wf(create_model(s, content)),
        active_tasks(create_model(s, content)) == active_tasks(s).push(
            TaskModel { id: s.next_id, content, active: true },
        ),
        forall|k: int| 0 <= k < s.tasks.len() ==> #[trigger] s.tasks[k].id != s.next_id,
{
    let t = TaskModel { id: s.next_id, content, active: true };
    let pred = |x: TaskModel| x.active;
    let pushed = s.tasks.push(t);
    reveal(Seq::filter);
    assert(pushed.drop_last() =~= s.tasks);
    assert(pushed.last() == t);
    assert(pushed.filter(pred) == s.tasks.filter(pred).push(t));
    assert(active_tasks(create_model(s, content)) == active_tasks(s).push(t));
    let c = create_model(s, content);
    assert forall|i: int, j: int|
        0 <= i < j < c.tasks.len() implies #[trigger] c.tasks[i].id
        < #[trigger] c.tasks[j].id by {
        if j == c.tasks.len() - 1 {
            assert(c.tasks[i] == s.tasks[i]);
            assert(s.tasks[i].id < s.next_id);
        }
    }
    assert forall|i: int| 0 <= i < c.tasks.len() implies #[trigger] c.tasks[i].id
        < c.next_id by {
        if i < c.tasks.len() - 1 {
            assert(c.tasks[i] == s.tasks[i]);
        }
    }
}

} // verus!
