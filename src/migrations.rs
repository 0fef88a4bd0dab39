//! Brings the store's schema up to date.
//!
//! Migrations are applied in the order of their index, each at most once.
//! Each one applied leaves a row with its index in the `migrations` table, and
//! all the pending ones are applied, with their rows, in one transaction.
use vstd::prelude::*;
use crate::models::sql_failure;
use crate::store::{ConnectionLike, ParamModel, Statement, StatementModel, execute_batch, query_integers};
use crate::util::ErrorModel;
use std::collections::HashSet;
use crate::util::{Error, join, join_text, int_string, int_text};

verus! {

/// Number of migrations that this release knows.
pub const MIGRATION_COUNT: usize = 5;

/// The statement of migration `i`. The list only ever grows at its end: a
/// released migration is never edited.
pub open spec fn migration_sql(i: int) -> Seq<char> {
    if i == 0 {
        "CREATE TABLE migrations(id INTEGER)"@
    } else if i == 1 {
        "CREATE TABLE experiments(id INTEGER PRIMARY KEY)"@
    } else if i == 2 {
        "CREATE TABLE datapoints(id INTEGER PRIMARY KEY NOT NULL, experiment_id INTEGER NOT NULL, sha VARCHAR(255) NOT NULL, description TEXT NOT NULL, status VARCHAR(255) NOT NULL)"@
    } else if i == 3 {
        "CREATE TABLE current_experiment(id INTEGER)"@
    } else {
        "CREATE TRIGGER current_experiment_single BEFORE INSERT ON current_experiment WHEN (SELECT COUNT(*) FROM current_experiment) > 0 BEGIN SELECT RAISE(ABORT, 'an experiment is already current'); END"@
    }
}

/// The statement that records migration `i` as applied.
pub open spec fn bookkeeping_sql(i: int) -> Seq<char> {
    "INSERT INTO migrations (id) VALUES ("@ + int_text(i) + ")"@
}

/// The recorded ids, as integers.
pub open spec fn id_set(ids: Set<i64>) -> Set<int> {
    Set::new(|i: int| i64::MIN <= i <= i64::MAX && ids.contains(i as i64))
}

pub open spec fn migrations_table_sql() -> Seq<char> {
    "SELECT COUNT(*) FROM sqlite_master WHERE type = 'table' AND name = 'migrations'"@
}

pub open spec fn select_migrations_sql() -> Seq<char> {
    "SELECT id FROM migrations"@
}

/// The indices below `n` that are not applied yet, in ascending order.
pub open spec fn pending(n: nat, applied: Set<int>) -> Seq<int>
    decreases n,
{
    if n == 0 {
        Seq::empty()
    } else {
        let before = pending((n - 1) as nat, applied);
        if applied.contains(n - 1) {
            before
        } else {
            before.push(n - 1)
        }
    }
}

/// The statements that apply the migrations `ids`: each one's own statement
/// followed by its bookkeeping insert.
pub open spec fn batch_statements(ids: Seq<int>) -> Seq<Seq<char>>
    decreases ids.len(),
{
    if ids.len() == 0 {
        Seq::empty()
    } else {
        batch_statements(ids.drop_last()) + seq![migration_sql(ids.last()), bookkeeping_sql(ids.last())]
    }
}

/// The script that applies `stmts` as one transaction.
pub open spec fn batch_script(stmts: Seq<Seq<char>>) -> Seq<char> {
    "BEGIN;\n"@ + join_text(stmts, ";\n"@) + ";\nCOMMIT;"@
}

/// The applied set after a run with `n` known migrations succeeds on a store
/// where `applied` were applied: each pending one is added by its bookkeeping
/// insert.
pub open spec fn applied_after(n: nat, applied: Set<int>) -> Set<int> {
    applied + pending(n, applied).to_set()
}

/// The indices `0..n`.
pub open spec fn first_indices(n: nat) -> Set<int> {
    Set::new(|i: int| 0 <= i < n)
}

/// The statement of migration `i`.
pub fn migration(i: usize) -> (r: &'static str)
    requires
        i < MIGRATION_COUNT,
    ensures
        r@ == migration_sql(i as int),
{
    if i == 0 {
        "CREATE TABLE migrations(id INTEGER)"
    } else if i == 1 {
        "CREATE TABLE experiments(id INTEGER PRIMARY KEY)"
    } else if i == 2 {
        "CREATE TABLE datapoints(id INTEGER PRIMARY KEY NOT NULL, experiment_id INTEGER NOT NULL, sha VARCHAR(255) NOT NULL, description TEXT NOT NULL, status VARCHAR(255) NOT NULL)"
    } else if i == 3 {
        "CREATE TABLE current_experiment(id INTEGER)"
    } else {
        "CREATE TRIGGER current_experiment_single BEFORE INSERT ON current_experiment WHEN (SELECT COUNT(*) FROM current_experiment) > 0 BEGIN SELECT RAISE(ABORT, 'an experiment is already current'); END"
    }
}

fn bookkeeping_statement(i: i64) -> (r: String)
    ensures
        r@ == bookkeeping_sql(i as int),
{
    let id = int_string(i);
    String::from_str("INSERT INTO migrations (id) VALUES (").concat(id.as_str()).concat(")")
}

/// The statements that bring a store where the migrations `applied` were
/// applied up to date, in the order in which they must run.
pub fn pending_statements(applied: &HashSet<i64>) -> (r: Vec<String>)
    ensures
        r.deep_view() == batch_statements(pending(MIGRATION_COUNT as nat, id_set(applied@))),
{
    broadcast use vstd::std_specs::hash::group_hash_axioms;

    let ghost done = id_set(applied@);
    let mut stmts: Vec<String> = Vec::new();
    let mut i: usize = 0;
    while i < MIGRATION_COUNT
        invariant
            i <= MIGRATION_COUNT,
            done == id_set(applied@),
            stmts.deep_view() == batch_statements(pending(i as nat, done)),
        decreases MIGRATION_COUNT - i,
    {
        if !applied.contains(&(i as i64)) {
            let ghost before = stmts.deep_view();
            let ghost p = pending(i as nat, done);
            stmts.push(String::from_str(migration(i)));
            stmts.push(bookkeeping_statement(i as i64));
            proof {
                assert(p.push(i as int).drop_last() =~= p);
                assert(stmts.deep_view() =~= before + seq![
                    migration_sql(i as int),
                    bookkeeping_sql(i as int),
                ]);
            }
        }
        i += 1;
    }
    stmts
}

/// The script that brings a store where `applied` were applied up to date;
/// `None` where every known migration is applied already.
pub fn migration_batch(applied: &HashSet<i64>) -> (r: Option<String>)
    ensures
        pending(MIGRATION_COUNT as nat, id_set(applied@)).len() == 0 <==> r is None,
        r matches Some(s) ==> s@ == batch_script(
            batch_statements(pending(MIGRATION_COUNT as nat, id_set(applied@))),
        ),
{
    let stmts = pending_statements(applied);
    proof {
        lemma_batch_len(pending(MIGRATION_COUNT as nat, id_set(applied@)));
    }
    if stmts.len() == 0 {
        None
    } else {
        let body = join(&stmts, ";\n");
        Some(String::from_str("BEGIN;\n").concat(body.as_str()).concat(";\nCOMMIT;"))
    }
}

proof fn lemma_batch_len(ids: Seq<int>)
    ensures
        batch_statements(ids).len() == 2 * ids.len(),
    decreases ids.len(),
{
    if ids.len() > 0 {
        lemma_batch_len(ids.drop_last());
    }
}


/// The query for the recorded ids.
pub fn select_migrations_query() -> (r: Statement)
    ensures
        r@ == (StatementModel { sql: select_migrations_sql(), params: seq![] }),
{
    let r = Statement { sql: "SELECT id FROM migrations", params: Vec::new() };
    assert(r@.params =~= Seq::<ParamModel>::empty());
    r
}

/// The query that counts the tables named `migrations`.
pub fn migrations_table_query() -> (r: Statement)
    ensures
        r@ == (StatementModel { sql: migrations_table_sql(), params: seq![] }),
{
    let r = Statement {
        sql: "SELECT COUNT(*) FROM sqlite_master WHERE type = 'table' AND name = 'migrations'",
        params: Vec::new(),
    };
    assert(r@.params =~= Seq::<ParamModel>::empty());
    r
}

/// Whether the counts that [`migrations_table_query`] read show the table.
pub fn has_migrations_table(counts: &Vec<i64>) -> (r: bool)
    ensures
        r == (counts@.len() > 0 && counts@[0] != 0),
{
    counts.len() > 0 && counts[0] != 0
}

/// The set of the ids read.
pub fn id_set_of(ids: &Vec<i64>) -> (r: HashSet<i64>)
    ensures
        r@ == ids@.to_set(),
{
    broadcast use vstd::std_specs::hash::group_hash_axioms;
    let mut result: HashSet<i64> = HashSet::new();
    let mut j: usize = 0;
    while j < ids.len()
        invariant
            j <= ids.len(),
            result@ == ids@.take(j as int).to_set(),
        decreases ids.len() - j,
    {
        proof {
            assert(ids@.take(j + 1) =~= ids@.take(j as int) + seq![ids@[j as int]]);
            Seq::lemma_to_set_insert_commutes(ids@.take(j as int), ids@[j as int]);
        }
        result.insert(ids[j]);
        j += 1;
    }
    proof {
        assert(ids@.take(j as int) =~= ids@);
    }
    result
}

/// The ids of the migrations recorded in the `migrations` table, which must
/// exist.
fn select_migrations<T: ConnectionLike>(conn: &T) -> (r: Result<HashSet<i64>, Error>)
    ensures
        r matches Err(e) ==> e@ matches ErrorModel::Generic(Some(_)),
{
    match query_integers(conn.connection(), &select_migrations_query()) {
        Ok(ids) => Ok(id_set_of(&ids)),
        Err(e) => Err(sql_failure(&e)),
    }
}

/// The ids of the migrations applied so far; none where the store has no
/// `migrations` table yet.
fn finished_migrations<T: ConnectionLike>(conn: &T) -> (r: Result<HashSet<i64>, Error>)
    ensures
        r matches Err(e) ==> e@ matches ErrorModel::Generic(Some(_)),
{
    match query_integers(conn.connection(), &migrations_table_query()) {
        Ok(counts) => {
            if has_migrations_table(&counts) {
                select_migrations(conn)
            } else {
                Ok(HashSet::new())
            }
        },
        Err(e) => Err(sql_failure(&e)),
    }
}

/// Brings the schema to the latest version. The store is only written where
/// some migration is pending; the pending ones then run, with their
/// bookkeeping rows, in one transaction that applies whole or not at all.
/// Run it on a connection with no transaction open.
pub fn run<T: ConnectionLike>(conn: &T) -> (r: Result<(), Error>)
    ensures
        r matches Err(e) ==> e@ matches ErrorModel::Generic(Some(_)),
{
    let finished = finished_migrations(conn)?;
    match migration_batch(&finished) {
        Some(script) => match execute_batch(conn.connection(), script.as_str()) {
            Ok(()) => Ok(()),
            Err(e) => {
                // A statement of the batch failed after its BEGIN: undo what ran.
                let _ = execute_batch(conn.connection(), "ROLLBACK");
                Err(sql_failure(&e))
            },
        },
        None => Ok(()),
    }
}

proof fn lemma_pending_members(n: nat, applied: Set<int>)
    ensures
        forall|i: int| #[trigger]
            pending(n, applied).contains(i) <==> (0 <= i < n && !applied.contains(i)),
    decreases n,
{
    if n == 0 {
        assert forall|i: int| !(#[trigger] pending(n, applied).contains(i)) by {
            assert(pending(n, applied).len() == 0);
        }
    } else {
        lemma_pending_members((n - 1) as nat, applied);
        let before = pending((n - 1) as nat, applied);
        assert forall|i: int| #[trigger]
            pending(n, applied).contains(i) <==> (0 <= i < n && !applied.contains(i)) by {
            if !applied.contains(n - 1) {
                let after = before.push(n - 1);
                assert(pending(n, applied) == after);
                if after.contains(i) {
                    let j = choose|j: int| 0 <= j < after.len() && #[trigger] after[j] == i;
                    if j < before.len() {
                        assert(before[j] == i);
                        assert(before.contains(i));
                    }
                }
                if before.contains(i) {
                    let j = choose|j: int| 0 <= j < before.len() && #[trigger] before[j] == i;
                    assert(after[j] == i);
                }
                if i == n - 1 {
                    assert(after[before.len() as int] == i);
                }
            }
        }
    }
}

proof fn lemma_applied_after_members(n: nat, applied: Set<int>)
    ensures
        forall|i: int| applied_after(n, applied).contains(i) <==> (applied.contains(i) || 0 <= i < n),
{
    lemma_pending_members(n, applied);
}

/// Running the migrations twice in a row with the same list: the second run
/// finds nothing pending, so it leaves the store untouched and the applied set
/// as the first run left it.
pub proof fn lemma_run_idempotent(n: nat, applied: Set<int>)
    ensures
        pending(n, applied_after(n, applied)).len() == 0,
        applied_after(n, applied_after(n, applied)) == applied_after(n, applied),
{
    let after = applied_after(n, applied);
    lemma_applied_after_members(n, applied);
    lemma_pending_members(n, after);
    if pending(n, after).len() > 0 {
        let x = pending(n, after)[0];
        assert(pending(n, after).contains(x));
        assert(0 <= x < n && !after.contains(x));
        assert(after.contains(x));
    }
    lemma_applied_after_members(n, after);
    assert(applied_after(n, after) =~= after);
}

proof fn lemma_pending_from_prefix(k: nat, n: nat)
    ensures
        pending(n, first_indices(k)) =~= Seq::new(
            if n > k { (n - k) as nat } else { 0 },
            |j: int| k + j,
        ),
    decreases n,
{
    if n > 0 {
        lemma_pending_from_prefix(k, (n - 1) as nat);
    }
}

/// A run with `n` known migrations on a store whose applied set is `0..k`,
/// for `k <= n`, applies `k..n` in ascending order and leaves `0..n`.
pub proof fn lemma_gapless(k: nat, n: nat)
    requires
        k <= n,
    ensures
        pending(n, first_indices(k)) == Seq::new((n - k) as nat, |j: int| k + j),
        applied_after(n, first_indices(k)) == first_indices(n),
{
    lemma_pending_from_prefix(k, n);
    lemma_applied_after_members(n, first_indices(k));
    assert(applied_after(n, first_indices(k)) =~= first_indices(n));
}

/// The applied set after one successful run per release, starting from an
/// empty store, where release `r` knows `sizes[r]` migrations.
pub open spec fn applied_after_releases(sizes: Seq<nat>) -> Set<int>
    decreases sizes.len(),
{
    if sizes.len() == 0 {
        Set::empty()
    } else {
        applied_after(sizes.last(), applied_after_releases(sizes.drop_last()))
    }
}

/// Across releases that only append migrations, one run each leaves the
/// applied set `0..k` for the latest release's count `k`: never a gap.
pub proof fn lemma_releases_gapless(sizes: Seq<nat>)
    requires
        forall|i: int, j: int| 0 <= i < j < sizes.len() ==> sizes[i] <= sizes[j],
    ensures
        sizes.len() > 0 ==> applied_after_releases(sizes) == first_indices(sizes.last()),
    decreases sizes.len(),
{
    if sizes.len() == 1 {
        let prev = sizes.drop_last();
        assert(prev.len() == 0);
        assert(applied_after_releases(prev) == Set::<int>::empty());
        assert(Set::<int>::empty() =~= first_indices(0));
        lemma_gapless(0, sizes.last());
        assert(applied_after_releases(sizes) == applied_after(sizes.last(), applied_after_releases(prev)));
    } else if sizes.len() > 1 {
        let prev = sizes.drop_last();
        assert forall|i: int, j: int| 0 <= i < j < prev.len() implies prev[i] <= prev[j] by {
            assert(prev[i] == sizes[i] && prev[j] == sizes[j]);
        }
        lemma_releases_gapless(prev);
        assert(prev.last() == sizes[sizes.len() - 2]);
        lemma_gapless(prev.last(), sizes.last());
        assert(applied_after_releases(sizes) == applied_after(sizes.last(), applied_after_releases(prev)));
    }
}

} // verus!
