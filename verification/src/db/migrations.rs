//! Schema migrations: an ordered list of versioned SQL changes, and the decisions of which to
//! apply or roll back given the schema version a database reports.

use vstd::prelude::*;
use crate::db::error::DatabaseError;
use crate::text::{signed_decimal, write_signed_decimal};
use vstd::string::StringExecFns;

verus! {

broadcast use vstd::seq_lib::group_seq_properties;

/// One versioned schema change.
#[derive(Debug, Clone)]
pub struct Migration {
    /// Version number; migrations apply in increasing order of version.
    pub version: i32,
    /// What the migration does.
    pub description: String,
    /// SQL that applies the migration.
    pub up_sql: String,
    /// SQL that undoes the migration, if it can be undone.
    pub down_sql: Option<String>,
}

impl Migration {
    /// A migration that cannot be rolled back.
    pub fn new(version: i32, description: &str, up_sql: &str) -> (m: Self)
        ensures
            m.version == version,
            m.description@ == description@,
            m.up_sql@ == up_sql@,
            m.down_sql is None,
    {
        Self { version, description: description.to_owned(), up_sql: up_sql.to_owned(), down_sql: None }
    }

    /// A migration with SQL that undoes it.
    pub fn with_rollback(version: i32, description: &str, up_sql: &str, down_sql: &str) -> (m: Self)
        ensures
            m.version == version,
            m.description@ == description@,
            m.up_sql@ == up_sql@,
            m.down_sql matches Some(d) && d@ == down_sql@,
    {
        Self {
            version,
            description: description.to_owned(),
            up_sql: up_sql.to_owned(),
            down_sql: Some(down_sql.to_owned()),
        }
    }
}

/// The migrations are in non-decreasing order of version.
pub open spec fn versions_sorted(s: Seq<Migration>) -> bool {
    forall|i: int, j: int| 0 <= i <= j < s.len() ==> s[i].version <= s[j].version
}

/// The migrations of version `v`, in their order.
pub open spec fn with_version(s: Seq<Migration>, v: i32) -> Seq<Migration> {
    s.filter(|m: Migration| m.version == v)
}

/// `s` holds `t` sorted by version, migrations of equal version kept in their order.
pub open spec fn stably_sorted_from(s: Seq<Migration>, t: Seq<Migration>) -> bool {
    &&& versions_sorted(s)
    &&& forall|v: i32| #[trigger] with_version(s, v) == with_version(t, v)
}

/// Holds the migrations of the app, sorted by version.
pub struct MigrationManager {
    migrations: Vec<Migration>,
}

impl View for MigrationManager {
    type V = Seq<Migration>;

    closed spec fn view(&self) -> Seq<Migration> {
        self.migrations@
    }
}

/// Index of the first migration of `s` with a version above `v` (its length if there is none).
fn upper_bound(s: &Vec<Migration>, v: i32) -> (p: usize)
    requires
        versions_sorted(s@),
    ensures
        p <= s@.len(),
        forall|i: int| 0 <= i < p ==> s@[i].version <= v,
        forall|i: int| p <= i < s@.len() ==> s@[i].version > v,
{
    let mut p: usize = 0;
    while p < s.len() && s[p].version <= v
        invariant
            p <= s@.len(),
            versions_sorted(s@),
            forall|i: int| 0 <= i < p ==> s@[i].version <= v,
        decreases s@.len() - p,
    {
        p = p + 1;
    }
    p
}

proof fn lemma_with_version_single(x: Migration, v: i32)
    ensures
        with_version(seq![x], v) == (if x.version == v { seq![x] } else { Seq::<Migration>::empty() }),
{
    reveal_with_fuel(Seq::filter, 2);
    assert(seq![x].drop_last() =~= Seq::<Migration>::empty());
}

proof fn lemma_with_version_none(s: Seq<Migration>, v: i32)
    requires
        forall|i: int| 0 <= i < s.len() ==> s[i].version != v,
    ensures
        with_version(s, v) == Seq::<Migration>::empty(),
{
    let f = with_version(s, v);
    if f.len() > 0 {
        s.lemma_filter_contains_rev(|m: Migration| m.version == v, f[0]);
        assert(s.filter(|m: Migration| m.version == v).contains(f[0]));
        s.lemma_filter_pred(|m: Migration| m.version == v, 0);
    }
    assert(f =~= Seq::<Migration>::empty());
}

/// Inserting `x` into a sorted list right after the migrations of its version or lower keeps
/// the list sorted and appends `x` to the migrations of its version.
proof fn lemma_insert_stable(s: Seq<Migration>, p: int, x: Migration)
    requires
        versions_sorted(s),
        0 <= p <= s.len(),
        forall|i: int| 0 <= i < p ==> s[i].version <= x.version,
        forall|i: int| p <= i < s.len() ==> s[i].version > x.version,
    ensures
        versions_sorted(s.insert(p, x)),
        forall|v: i32| #[trigger] with_version(s.insert(p, x), v)
            == if v == x.version { with_version(s, v).push(x) } else { with_version(s, v) },
{
    let r = s.insert(p, x);
    assert(r =~= s.take(p) + seq![x] + s.skip(p));
    assert(s =~= s.take(p) + s.skip(p));
    assert forall|v: i32| #[trigger] with_version(r, v)
        == if v == x.version { with_version(s, v).push(x) } else { with_version(s, v) } by {
        let pred = |m: Migration| m.version == v;
        Seq::filter_distributes_over_add(s.take(p) + seq![x], s.skip(p), pred);
        Seq::filter_distributes_over_add(s.take(p), seq![x], pred);
        Seq::filter_distributes_over_add(s.take(p), s.skip(p), pred);
        lemma_with_version_single(x, v);
        if v == x.version {
            lemma_with_version_none(s.skip(p), v);
            assert(with_version(s, v) =~= with_version(s.take(p), v));
            assert(with_version(r, v) =~= with_version(s.take(p), v) + seq![x]);
        } else {
            assert(with_version(r, v) =~= with_version(s.take(p), v) + with_version(s.skip(p), v));
        }
    }
}

/// Appending `x` appends it to the migrations of its version.
proof fn lemma_with_version_push(s: Seq<Migration>, x: Migration, v: i32)
    ensures
        with_version(s.push(x), v) == if v == x.version { with_version(s, v).push(x) } else { with_version(s, v) },
{
    let pred = |m: Migration| m.version == v;
    assert(s.push(x) =~= s + seq![x]);
    Seq::filter_distributes_over_add(s, seq![x], pred);
    lemma_with_version_single(x, v);
    if v == x.version {
        assert(with_version(s.push(x), v) =~= with_version(s, v).push(x));
    } else {
        assert(with_version(s.push(x), v) =~= with_version(s, v));
    }
}

impl MigrationManager {
    /// A manager of the given migrations, sorted by version; migrations of equal version keep
    /// their order.
    pub fn new(migrations: Vec<Migration>) -> (m: Self)
        ensures
            stably_sorted_from(m@, migrations@),
    {
        let ghost orig = migrations@;
        let mut input = migrations;
        let mut sorted: Vec<Migration> = Vec::new();
        let ghost mut k: int = 0;
        while input.len() > 0
            invariant
                0 <= k <= orig.len(),
                input@ == orig.skip(k),
                versions_sorted(sorted@),
                forall|v: i32| #[trigger] with_version(sorted@, v) == with_version(orig.take(k), v),
            decreases input@.len(),
        {
            let x = input.remove(0);
            let p = upper_bound(&sorted, x.version);
            proof {
                assert(x == orig[k]);
                lemma_insert_stable(sorted@, p as int, x);
                assert(orig.take(k + 1) =~= orig.take(k).push(x));
                assert forall|v: i32| #[trigger] with_version(sorted@.insert(p as int, x), v)
                    == with_version(orig.take(k + 1), v) by {
                    lemma_with_version_push(orig.take(k), x, v);
                }
            }
            sorted.insert(p, x);
            proof {
                k = k + 1;
                assert(input@ =~= orig.skip(k));
            }
        }
        proof {
            assert(orig.take(k) =~= orig);
        }
        Self { migrations: sorted }
    }

    /// The migrations, in order of version.
    pub fn list_migrations(&self) -> (s: &[Migration])
        ensures
            s@ == self@,
    {
        self.migrations.as_slice()
    }

    /// Indices of the migrations to apply to a database at schema version `current_version`:
    /// those with a higher version, in order.
    pub fn pending_indices(&self, current_version: i32) -> (r: Vec<usize>)
        ensures
            forall|i: int| 0 <= i < r@.len() ==> r@[i] < self@.len() && self@[r@[i] as int].version > current_version,
            forall|i: int, j: int| 0 <= i < j < r@.len() ==> r@[i] < r@[j],
            forall|k: int| 0 <= k < self@.len() && self@[k].version > current_version ==> r@.contains(k as usize),
            r@.len() == pending_count(self@, current_version),
    {
        let mut r: Vec<usize> = Vec::new();
        let mut i: usize = 0;
        while i < self.migrations.len()
            invariant
                i <= self@.len(),
                self@ == self.migrations@,
                forall|a: int| 0 <= a < r@.len() ==> r@[a] < i && self@[r@[a] as int].version > current_version,
                forall|a: int, b: int| 0 <= a < b < r@.len() ==> r@[a] < r@[b],
                forall|k: int| 0 <= k < i && self@[k].version > current_version ==> r@.contains(k as usize),
                r@.len() == pending_count(self@.take(i as int), current_version),
            decreases self@.len() - i,
        {
            proof {
                assert(self@.take(i + 1).drop_last() =~= self@.take(i as int));
            }
            if self.migrations[i].version > current_version {
                let ghost before = r@;
                r.push(i);
                proof {
                    assert forall|k: int| 0 <= k < i + 1 && self@[k].version > current_version
                        implies r@.contains(k as usize) by {
                        if k == i {
                            assert(r@[r@.len() - 1] == i);
                        } else {
                            let w = choose|w: int| 0 <= w < before.len() && before[w] == k as usize;
                            assert(r@[w] == k as usize);
                        }
                    }
                }
            }
            i = i + 1;
        }
        proof {
            assert(self@.take(i as int) =~= self@);
        }
        r
    }

    /// Whether a database at schema version `current_version` has migrations to apply.
    pub fn has_pending_migrations(&self, current_version: i32) -> (r: bool)
        ensures
            r == exists|k: int| 0 <= k < self@.len() && self@[k].version > current_version,
    {
        let mut i: usize = 0;
        while i < self.migrations.len()
            invariant
                i <= self@.len(),
                self@ == self.migrations@,
                forall|k: int| 0 <= k < i ==> self@[k].version <= current_version,
            decreases self@.len() - i,
        {
            if self.migrations[i].version > current_version {
                proof {
                    assert(self@[i as int].version > current_version);
                }
                return true;
            }
            i = i + 1;
        }
        false
    }

    /// The migration to roll back on a database at schema version `current_version`: the first
    /// one of that version. Version 0 has nothing to roll back; a version without a migration,
    /// or whose migration has no rollback SQL, is an error.
    pub fn rollback_target(&self, current_version: i32) -> (r: Result<usize, DatabaseError>)
        ensures
            match r {
                Ok(k) => {
                    &&& current_version != 0
                    &&& k < self@.len()
                    &&& self@[k as int].version == current_version
                    &&& self@[k as int].down_sql is Some
                    &&& forall|j: int| 0 <= j < k ==> self@[j].version != current_version
                },
                Err(DatabaseError::Schema(msg)) => if current_version == 0 {
                    msg@ == "No migrations to rollback"@
                } else if forall|j: int| 0 <= j < self@.len() ==> self@[j].version != current_version {
                    msg@ == "Migration version "@ + signed_decimal(current_version as int)
                        + " not found in migration list"@
                } else {
                    &&& (exists|k: int| {
                        &&& 0 <= k < self@.len()
                        &&& self@[k].version == current_version
                        &&& self@[k].down_sql is None
                        &&& forall|j: int| 0 <= j < k ==> self@[j].version != current_version
                    })
                    &&& msg@ == "Migration version "@ + signed_decimal(current_version as int)
                        + " has no rollback SQL"@
                },
                Err(_) => false,
            },
    {
        if current_version == 0 {
            return Err(DatabaseError::Schema("No migrations to rollback".to_owned()));
        }
        let mut i: usize = 0;
        while i < self.migrations.len()
            invariant
                i <= self@.len(),
                self@ == self.migrations@,
                current_version != 0,
                forall|j: int| 0 <= j < i ==> self@[j].version != current_version,
            decreases self@.len() - i,
        {
            if self.migrations[i].version == current_version {
                if self.migrations[i].down_sql.is_some() {
                    return Ok(i);
                }
                let mut msg = "Migration version ".to_owned();
                write_signed_decimal(&mut msg, current_version as i64);
                msg.append(" has no rollback SQL");
                proof {
                    assert(self@[i as int].version == current_version);
                }
                return Err(DatabaseError::Schema(msg));
            }
            i = i + 1;
        }
        let mut msg = "Migration version ".to_owned();
        write_signed_decimal(&mut msg, current_version as i64);
        msg.append(" not found in migration list");
        Err(DatabaseError::Schema(msg))
    }
}

/// The schema version after applying the pending migrations of `s` to a database at version
/// `current`: the version of the last migration when it is pending, else `current`.
pub open spec fn version_after_apply(s: Seq<Migration>, current: i32) -> i32 {
    if s.len() > 0 && s.last().version > current {
        s.last().version
    } else {
        current
    }
}

/// Applying the pending migrations leaves none pending: no migration has a version above the
/// version the database is at afterwards.
pub proof fn lemma_apply_pending_idempotent(s: Seq<Migration>, current: i32)
    requires
        versions_sorted(s),
    ensures
        forall|k: int| 0 <= k < s.len() ==> s[k].version <= version_after_apply(s, current),
{
    if s.len() > 0 {
        assert forall|k: int| 0 <= k < s.len() implies s[k].version <= version_after_apply(s, current) by {
            assert(s[k].version <= s[s.len() - 1].version);
        }
    }
}

/// How many migrations of `s` have a version above `current`.
pub open spec fn pending_count(s: Seq<Migration>, current: i32) -> nat
    decreases s.len(),
{
    if s.len() == 0 {
        0
    } else {
        pending_count(s.drop_last(), current) + if s.last().version > current { 1nat } else { 0nat }
    }
}

/// A database brought to the version of its pending migrations has none left: applying the
/// pending migrations a second time applies nothing and leaves the version as it is.
pub proof fn lemma_second_apply_applies_nothing(s: Seq<Migration>, current: i32)
    requires
        versions_sorted(s),
    ensures
        pending_count(s, version_after_apply(s, current)) == 0,
        version_after_apply(s, version_after_apply(s, current)) == version_after_apply(s, current),
{
    lemma_apply_pending_idempotent(s, current);
    lemma_no_pending_count(s, version_after_apply(s, current));
}

/// Where no version is above `v`, none is pending.
proof fn lemma_no_pending_count(s: Seq<Migration>, v: i32)
    requires
        forall|k: int| 0 <= k < s.len() ==> s[k].version <= v,
    ensures
        pending_count(s, v) == 0,
    decreases s.len(),
{
    if s.len() > 0 {
        let d = s.drop_last();
        assert forall|k: int| 0 <= k < d.len() implies d[k].version <= v by {
            assert(d[k] == s[k]);
        }
        lemma_no_pending_count(d, v);
        assert(s.last() == s[s.len() - 1]);
    }
}

/// The migrations of the app.
pub fn get_migrations() -> (v: Vec<Migration>)
    ensures
        v@.len() == 0,
{
    Vec::new()
}

} // verus!
