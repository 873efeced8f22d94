//! The schema migration engine: a canonical ordered list of named, one-shot
//! schema changes, applied by counting how many are already recorded and
//! resuming from there.
//!
//! The engine relies on the documented invariant that the recorded names are
//! always a prefix of the canonical list — the list only ever grows by
//! appending, and is never reordered or edited. `engine_consistent` states
//! that invariant; the engine establishes it again after every run.

use vstd::prelude::*;

use crate::store::{Store, StoreError, StoreModel};

verus! {

/// The canonical, build-time-fixed schema migrations, in application order.
#[derive(PartialEq, Eq, Structural, Clone, Copy, Debug)]
pub enum KnownMigration {
    /// Create the task table with its id and content columns.
    InitTable,
    /// Add the `active` flag column, defaulting to active.
    AddHashColumn,
}

/// The canonical migration list as a sequence.
pub open spec fn canonical_list() -> Seq<KnownMigration> {
    seq![KnownMigration::InitTable, KnownMigration::AddHashColumn]
}

/// The canonical migration names, in application order.
pub open spec fn canonical_names() -> Seq<Seq<char>> {
    seq!["Init Todo Table"@, "Add Hash Column to Todo Table"@]
}

impl KnownMigration {
    /// The stable bookkeeping name of this migration, as a spec value.
    pub open spec fn spec_hash(&self) -> Seq<char> {
        match self {
            KnownMigration::InitTable => "Init Todo Table"@,
            KnownMigration::AddHashColumn => "Add Hash Column to Todo Table"@,
        }
    }

    /// The stable name recorded in the migration table for this migration.
    pub fn hash(&self) -> (r: &'static str)
        ensures
            r@ == self.spec_hash(),
    {
        match self {
            KnownMigration::InitTable => "Init Todo Table",
            KnownMigration::AddHashColumn => "Add Hash Column to Todo Table",
        }
    }

    /// Every known migration, in canonical order.
    pub fn all() -> (r: Vec<KnownMigration>)
        ensures
            r@ == canonical_list(),
    {
        let r = vec![KnownMigration::InitTable, KnownMigration::AddHashColumn];
        proof {
            assert(r@ =~= canonical_list());
        }
        r
    }
}

/// The two name sequences line up: the name at each canonical position is
/// the name of the migration at that position.
pub proof fn lemma_canonical_names_match()
    ensures
        canonical_names().len() == canonical_list().len(),
        forall|i: int|
            0 <= i < canonical_list().len() ==> #[trigger] canonical_list()[i].spec_hash()
                == canonical_names()[i],
        canonical_names()[0] != canonical_names()[1],
{
    assert(canonical_list()[0].spec_hash() == canonical_names()[0]);
    assert(canonical_list()[1].spec_hash() == canonical_names()[1]);
    reveal_strlit("Init Todo Table");
    reveal_strlit("Add Hash Column to Todo Table");
    assert(canonical_names()[0].len() != canonical_names()[1].len());
}

/// Run the schema change a migration stands for against the store.
pub fn execute(m: &KnownMigration, store: &mut Store) -> (r: Result<(), StoreError>)
    requires
        old(store).wf(),
    ensures
        final(store).wf(),
        m is InitTable ==> r is Ok && final(store)@ == (StoreModel {
            todo_table: true,
            ..old(store)@
        }),
        m is AddHashColumn && !old(store)@.todo_table ==> r == Err::<(), StoreError>(
            StoreError::MissingTable,
        ) && final(store)@ == old(store)@,
        m is AddHashColumn && old(store)@.todo_table && old(store)@.active_column ==> r == Err::<
            (),
            StoreError,
        >(StoreError::DuplicateColumn) && final(store)@ == old(store)@,
        m is AddHashColumn && old(store)@.todo_table && !old(store)@.active_column ==> r is Ok
            && final(store)@ == (StoreModel { active_column: true, ..old(store)@ }),
{
    match m {
        KnownMigration::InitTable => store.create_todo_table(),
        KnownMigration::AddHashColumn => store.add_active_column(),
    }
}

/// The documented bookkeeping invariant the engine both assumes and
/// re-establishes: the recorded names are a prefix of the canonical list,
/// and the schema facts reflect exactly the recorded prefix.
pub open spec fn engine_consistent(s: StoreModel) -> bool {
    &&& s.migrations.len() <= canonical_names().len()
    &&& s.migrations =~= canonical_names().take(s.migrations.len() as int)
    &&& s.todo_table == (s.migrations.len() >= 1)
    &&& s.active_column == (s.migrations.len() >= 2)
}

/// The store after a complete startup run: every canonical migration
/// recorded, the full schema in place, and the task rows untouched.
pub open spec fn migrated(s: StoreModel) -> StoreModel {
    StoreModel {
        migrations: canonical_names(),
        todo_table: true,
        active_column: true,
        migration_table: true,
        ..s
    }
}

/// The store part-way through a run, with the first `i` canonical
/// migrations recorded and their schema effects in place.
pub open spec fn migrated_to(s: StoreModel, i: int) -> StoreModel {
    StoreModel {
        migrations: canonical_names().take(i),
        todo_table: i >= 1,
        active_column: i >= 2,
        migration_table: true,
        ..s
    }
}

/// The migrations still to apply after `applied` have been recorded: the
/// canonical suffix from that position. Counting past the end leaves
/// nothing to do.
pub fn pending_migrations(applied: usize) -> (r: Vec<KnownMigration>)
    ensures
        applied <= canonical_list().len() ==> r@ == canonical_list().skip(applied as int),
        applied > canonical_list().len() ==> r@ == Seq::<KnownMigration>::empty(),
{
    let all = KnownMigration::all();
    let mut r: Vec<KnownMigration> = Vec::new();
    let mut i: usize = applied;
    while i < all.len()
        invariant
            all@ == canonical_list(),
            applied <= i,
            applied <= all@.len() ==> i <= all@.len() && r@ == all@.subrange(
                applied as int,
                i as int,
            ),
            applied > all@.len() ==> r@ == Seq::<KnownMigration>::empty(),
        decreases all@.len() - i,
    {
        r.push(all[i]);
        proof {
            assert(r@ =~= all@.subrange(applied as int, i + 1 as int));
        }
        i += 1;
    }
    proof {
        if applied <= all@.len() {
            assert(r@ =~= canonical_list().skip(applied as int));
        } else {
            assert(r@ =~= Seq::<KnownMigration>::empty());
        }
    }
    r
}

/// Bring the store's schema to the latest known version: ensure the
/// bookkeeping table exists, count the recorded migrations, and apply the
/// canonical migrations past that count, in order, recording each name as
/// its body succeeds. Returns how many migrations this run applied.
///
/// Under the bookkeeping invariant the whole run succeeds, touches no task
/// row, and leaves every canonical migration recorded exactly once, in
/// canonical order — so a second run applies zero migrations.
pub fn perform_migrations(store: &mut Store) -> (r: Result<usize, StoreError>)
    requires
        old(store).wf(),
        engine_consistent(old(store)@),
    ensures
        final(store).wf(),
        r is Ok,
        final(store)@ == migrated(old(store)@),
        engine_consistent(final(store)@),
        r->Ok_0 == canonical_names().len() - old(store)@.migrations.len(),
{
    proof {
        lemma_canonical_names_match();
    }
    match store.bootstrap_migration_table() {
        Ok(_) => (),
        Err(e) => {
            return Err(e);
        },
    }
    let n = match store.applied_migration_count() {
        Ok(c) => c,
        Err(e) => {
            return Err(e);
        },
    };
    let all = KnownMigration::all();
    let mut i: usize = n;
    let mut applied: usize = 0;
    proof {
        assert(store@ =~= migrated_to(old(store)@, n as int));
    }
    while i < all.len()
        invariant
            old(store).wf(),
            engine_consistent(old(store)@),
            all@ == canonical_list(),
            canonical_names().len() == canonical_list().len(),
            forall|k: int|
                0 <= k < canonical_list().len() ==> #[trigger] canonical_list()[k].spec_hash()
                    == canonical_names()[k],
            canonical_names()[0] != canonical_names()[1],
            n == old(store)@.migrations.len(),
            n <= i,
            i <= all@.len(),
            applied == i - n,
            store.wf(),
            store@ == migrated_to(old(store)@, i as int),
        decreases all@.len() - i,
    {
        let m = all[i];
        match execute(&m, store) {
            Ok(_) => (),
            Err(e) => {
                return Err(e);
            },
        }
        proof {
            assert(store@.migrations == canonical_names().take(i as int));
            assert(store@.migration_table);
            assert(!store@.migrations.contains(m.spec_hash())) by {
                assert(m.spec_hash() == canonical_names()[i as int]);
                assert(forall|k: int|
                    0 <= k < i ==> #[trigger] store@.migrations[k] == canonical_names()[k]);
            }
        }
        match store.record_migration(m.hash()) {
            Ok(_) => (),
            Err(e) => {
                return Err(e);
            },
        }
        proof {
            assert(canonical_names().take(i as int).push(canonical_names()[i as int])
                =~= canonical_names().take(i + 1 as int));
            assert(store@ =~= migrated_to(old(store)@, i + 1 as int));
        }
        i += 1;
        applied += 1;
    }
    proof {
        assert(canonical_names().take(canonical_names().len() as int) =~= canonical_names());
        assert(store@ =~= migrated(old(store)@));
    }
    Ok(applied)
}

/// Migration idempotence, as a law over the store model: a store a
/// completed run leaves behind still satisfies the bookkeeping invariant,
/// already has every canonical migration recorded, and a further run —
/// whose outcome is again `migrated` — changes nothing and, by the contract
/// of `perform_migrations`, applies zero migrations.
pub proof fn lemma_migration_idempotent(s: StoreModel)
    ensures
        engine_consistent(migrated(s)),
        migrated(s).migrations.len() == canonical_names().len(),
        migrated(migrated(s)) == migrated(s),
{
    assert(canonical_names().take(canonical_names().len() as int) =~= canonical_names());
    assert(migrated(migrated(s)) =~= migrated(s));
}

} // verus!
