//! The database subsystem's decision logic. A store is modelled by its
//! connection URI, the ordered list of migration versions the runner found,
//! and how many of them the store has already applied — always a prefix of
//! the ordered list, since the runner applies migrations in version order
//! and each exactly once. Opening the pool, reading the migrations
//! directory and executing SQL are the engine's work, outside the library;
//! the library decides what to open, in which order to apply, and when a
//! store counts as ready for queries.

use vstd::prelude::*;
use vstd::string::StrSliceExecFns;
use vstd::string::StringExecFns;

use crate::args::Args;
use crate::paths::{base_name, dir_of, split_path};
use crate::text::{dec_digits, fmt_u64};

verus! {

broadcast use vstd::seq_lib::group_to_multiset_ensures, vstd::multiset::group_multiset_axioms;

/// Versions in strictly increasing order: the order the runner applies
/// them in, with no version listed twice.
pub open spec fn strictly_ascending(s: Seq<u64>) -> bool {
    forall|i: int, j: int| 0 <= i < j < s.len() ==> s[i] < s[j]
}

/// Versions in non-decreasing order.
pub open spec fn ascending(s: Seq<u64>) -> bool {
    forall|i: int, j: int| 0 <= i < j < s.len() ==> s[i] <= s[j]
}

/// Why the database stage cannot proceed.
#[derive(Debug)]
pub enum DatabaseError {
    /// The configured database location names no base file, so it has no
    /// parent directory to create and no file to open.
    NoParent { path: String },
    /// Two migrations carry the same version, so no order applies each
    /// exactly once.
    DuplicateVersion { version: u64 },
    /// The store claims more applied migrations than the runner found.
    SchemaAhead { applied: u64, available: u64 },
}

impl DatabaseError {
    pub open spec fn spec_message(&self) -> Seq<char> {
        match self {
            DatabaseError::NoParent { path } => "Database file at path `"@ + path@
                + "` would have no parent."@,
            DatabaseError::DuplicateVersion { version } => "Migration version `"@ + dec_digits(
                *version as nat,
            ) + "` is listed more than once."@,
            DatabaseError::SchemaAhead { applied, available } => "The store reports `"@
                + dec_digits(*applied as nat) + "` applied migrations but only `"@ + dec_digits(
                *available as nat,
            ) + "` are available."@,
        }
    }

    /// The operator-facing description of the failure.
    pub fn message(&self) -> (m: String)
        ensures
            m@ == self.spec_message(),
    {
        match self {
            DatabaseError::NoParent { path } => {
                let mut m = String::from_str("Database file at path `");
                m.append(path.as_str());
                m.append("` would have no parent.");
                proof {
                    assert(m@ =~= self.spec_message());
                }
                m
            },
            DatabaseError::DuplicateVersion { version } => {
                let mut m = String::from_str("Migration version `");
                let d = fmt_u64(*version);
                m.append(d.as_str());
                m.append("` is listed more than once.");
                proof {
                    assert(m@ =~= self.spec_message());
                }
                m
            },
            DatabaseError::SchemaAhead { applied, available } => {
                let mut m = String::from_str("The store reports `");
                let d = fmt_u64(*applied);
                m.append(d.as_str());
                m.append("` applied migrations but only `");
                let a = fmt_u64(*available);
                m.append(a.as_str());
                m.append("` are available.");
                proof {
                    assert(m@ =~= self.spec_message());
                }
                m
            },
        }
    }
}

/// The connection URI for a file-backed store opened in create-if-missing
/// mode.
pub open spec fn uri_spec(db_path: Seq<char>) -> Seq<char> {
    "file:"@ + db_path + "?mode=rwc"@
}

/// What must happen before the pool can be opened: the directory to create
/// (empty when the file lives in the current directory) and the URI to
/// open.
#[derive(Debug)]
pub struct PoolPlan {
    pub directory: String,
    pub uri: String,
}

/// Resolves a database location: the parent directory that must exist and
/// the create-if-missing URI. Fails exactly when the location names no
/// base file (it is empty or ends in `/`).
pub fn plan_pool(db_path: &str) -> (r: Result<PoolPlan, DatabaseError>)
    ensures
        match r {
            Ok(plan) => {
                &&& base_name(db_path@).len() > 0
                &&& plan.directory@ == dir_of(db_path@)
                &&& plan.uri@ == uri_spec(db_path@)
            },
            Err(DatabaseError::NoParent { path }) => {
                &&& base_name(db_path@).len() == 0
                &&& path@ == db_path@
            },
            Err(_) => false,
        },
{
    let (directory, name) = split_path(db_path);
    if name.as_str().unicode_len() == 0 {
        return Err(DatabaseError::NoParent { path: String::from_str(db_path) });
    }
    let mut uri = String::from_str("file:");
    uri.append(db_path);
    uri.append("?mode=rwc");
    proof {
        assert(uri@ =~= uri_spec(db_path@));
    }
    Ok(PoolPlan { directory, uri })
}

fn min_index(v: &Vec<u64>) -> (m: usize)
    requires
        v@.len() > 0,
    ensures
        m < v@.len(),
        forall|j: int| 0 <= j < v@.len() ==> v@[m as int] <= v@[j],
{
    let mut m: usize = 0;
    let mut i: usize = 1;
    let n = v.len();
    while i < n
        invariant
            n == v@.len(),
            m < i <= n,
            forall|j: int| 0 <= j < i ==> v@[m as int] <= v@[j],
        decreases n - i,
    {
        if v[i] < v[m] {
            m = i;
        }
        i += 1;
    }
    m
}

fn sort_versions(v: Vec<u64>) -> (r: Vec<u64>)
    ensures
        ascending(r@),
        r@.to_multiset() == v@.to_multiset(),
        r@.len() == v@.len(),
{
    let ghost orig = v@;
    let mut input = v;
    let mut out: Vec<u64> = Vec::new();
    proof {
        assert(out@.to_multiset().add(input@.to_multiset()) =~= orig.to_multiset());
    }
    while input.len() > 0
        invariant
            ascending(out@),
            forall|i: int, j: int|
                0 <= i < out@.len() && 0 <= j < input@.len() ==> out@[i] <= input@[j],
            out@.to_multiset().add(input@.to_multiset()) == orig.to_multiset(),
            out@.len() + input@.len() == orig.len(),
        decreases input.len(),
    {
        let ghost old_input = input@;
        let ghost old_out = out@;
        let m = min_index(&input);
        let x = input.remove(m);
        out.push(x);
        proof {
            old_input.remove_ensures(m as int);
            assert(old_input[m as int] == x);
            assert(old_input.contains(x));
            assert(input@.to_multiset() =~= old_input.to_multiset().remove(x));
            assert(out@.to_multiset() =~= old_out.to_multiset().insert(x));
            assert(old_input.to_multiset().count(x) >= 1);
            assert(out@.to_multiset().add(input@.to_multiset()) =~= old_out.to_multiset().add(
                old_input.to_multiset(),
            ));
            assert forall|i: int, j: int|
                0 <= i < out@.len() && 0 <= j < input@.len() implies out@[i] <= input@[j] by {
                assert(input@[j] == if j < m as int {
                    old_input[j]
                } else {
                    old_input[j + 1]
                });
            }
            assert(ascending(out@));
        }
    }
    out
}

/// Orders a set of migration versions as the runner will apply them:
/// strictly ascending by version. Fails exactly when some version is
/// listed more than once, since no order could then apply each exactly
/// once.
pub fn order_migrations(versions: Vec<u64>) -> (r: Result<Vec<u64>, DatabaseError>)
    ensures
        match r {
            Ok(sorted) => {
                &&& versions@.no_duplicates()
                &&& strictly_ascending(sorted@)
                &&& sorted@.to_multiset() == versions@.to_multiset()
                &&& sorted@.len() == versions@.len()
            },
            Err(DatabaseError::DuplicateVersion { version }) => {
                &&& !versions@.no_duplicates()
                &&& versions@.contains(version)
            },
            Err(_) => false,
        },
{
    let ghost orig = versions@;
    let sorted = sort_versions(versions);
    let n = sorted.len();
    let mut i: usize = 0;
    while n > 0 && i < n - 1
        invariant
            orig == versions@,
            n == sorted@.len(),
            i <= n,
            ascending(sorted@),
            sorted@.to_multiset() == orig.to_multiset(),
            sorted@.len() == orig.len(),
            forall|k: int| 0 <= k < i ==> #[trigger] sorted@[k] != sorted@[k + 1],
        decreases n - i,
    {
        if sorted[i] == sorted[i + 1] {
            let version = sorted[i];
            proof {
                assert(sorted@[i as int] == sorted@[i as int + 1]);
                if orig.no_duplicates() {
                    orig.lemma_multiset_has_no_duplicates();
                    sorted@.lemma_multiset_has_no_duplicates_conv();
                    assert(sorted@[i as int] != sorted@[i as int + 1]);
                }
                assert(!orig.no_duplicates());
                assert(sorted@.contains(version));
                assert(sorted@.to_multiset().contains(version));
                assert(orig.contains(version));
            }
            return Err(DatabaseError::DuplicateVersion { version });
        }
        i += 1;
    }
    proof {
        assert(strictly_ascending(sorted@)) by {
            assert forall|a: int, b: int| 0 <= a < b < sorted@.len() implies sorted@[a]
                < sorted@[b] by {
                assert(sorted@[a] <= sorted@[b - 1]);
                assert(sorted@[b - 1] != sorted@[b]);
                assert(sorted@[b - 1] <= sorted@[b]);
            }
        }
        sorted@.lemma_multiset_has_no_duplicates();
        orig.lemma_multiset_has_no_duplicates_conv();
    }
    Ok(sorted)
}

/// A store that is ready to serve, or becomes so once `migrate` runs: the
/// URI it was opened at, the runner's ordered migration versions, and how
/// many of them — always the leading ones — the store has applied.
#[derive(Debug)]
pub struct Database {
    pub uri: String,
    pub migrations: Vec<u64>,
    pub applied: usize,
}

#[verifier::ext_equal]
pub struct DatabaseView {
    pub uri: Seq<char>,
    pub migrations: Seq<u64>,
    pub applied: int,
}

impl View for Database {
    type V = DatabaseView;

    open spec fn view(&self) -> DatabaseView {
        DatabaseView {
            uri: self.uri@,
            migrations: self.migrations@,
            applied: self.applied as int,
        }
    }
}

/// What one migration pass does: every outstanding migration is applied,
/// in order, leaving nothing outstanding; the store is otherwise
/// unchanged.
pub open spec fn spec_migrate(d: DatabaseView) -> DatabaseView {
    DatabaseView { uri: d.uri, migrations: d.migrations, applied: d.migrations.len() as int }
}

impl Database {
    /// The applied migrations are a prefix of the runner's strictly
    /// version-ordered list.
    pub open spec fn wf(&self) -> bool {
        self@.applied <= self@.migrations.len() && strictly_ascending(self@.migrations)
    }

    /// Builds the store model from configuration and what the runner
    /// found: the versions present in the migrations directory, in any
    /// order, and how many the store has already applied. Fails exactly
    /// when the database location names no base file, a version is listed
    /// twice, or the store claims more applied migrations than exist.
    pub fn register(args: &Args, versions: Vec<u64>, already_applied: usize) -> (r: Result<
        Database,
        DatabaseError,
    >)
        ensures
            match r {
                Ok(d) => {
                    &&& d.wf()
                    &&& base_name(args.db_path@).len() > 0
                    &&& versions@.no_duplicates()
                    &&& already_applied <= versions@.len()
                    &&& d@.uri == uri_spec(args.db_path@)
                    &&& d@.migrations.to_multiset() == versions@.to_multiset()
                    &&& d@.migrations.len() == versions@.len()
                    &&& d@.applied == already_applied
                },
                Err(DatabaseError::NoParent { path }) => {
                    &&& base_name(args.db_path@).len() == 0
                    &&& path@ == args.db_path@
                },
                Err(DatabaseError::DuplicateVersion { version }) => {
                    &&& base_name(args.db_path@).len() > 0
                    &&& !versions@.no_duplicates()
                    &&& versions@.contains(version)
                },
                Err(DatabaseError::SchemaAhead { applied, available }) => {
                    &&& base_name(args.db_path@).len() > 0
                    &&& versions@.no_duplicates()
                    &&& already_applied > versions@.len()
                    &&& applied == already_applied
                    &&& available == versions@.len()
                },
            },
    {
        let plan = match plan_pool(args.db_path.as_str()) {
            Ok(plan) => plan,
            Err(e) => {
                return Err(e);
            },
        };
        let ordered = match order_migrations(versions) {
            Ok(ordered) => ordered,
            Err(e) => {
                return Err(e);
            },
        };
        if already_applied > ordered.len() {
            return Err(
                DatabaseError::SchemaAhead {
                    applied: already_applied as u64,
                    available: ordered.len() as u64,
                },
            );
        }
        Ok(Database { uri: plan.uri, migrations: ordered, applied: already_applied })
    }

    /// The versions still to apply, in application order.
    pub fn outstanding(&self) -> (v: Vec<u64>)
        requires
            self.wf(),
        ensures
            v@ == self@.migrations.skip(self@.applied),
    {
        let mut v: Vec<u64> = Vec::new();
        let n = self.migrations.len();
        let mut i: usize = self.applied;
        proof {
            assert(v@ =~= self@.migrations.subrange(self@.applied, self@.applied));
        }
        while i < n
            invariant
                n == self@.migrations.len(),
                self@.applied <= i <= n,
                v@ == self@.migrations.subrange(self@.applied, i as int),
            decreases n - i,
        {
            let x = self.migrations[i];
            v.push(x);
            proof {
                assert(v@ =~= self@.migrations.subrange(self@.applied, i + 1));
            }
            i += 1;
        }
        proof {
            assert(self@.migrations.subrange(self@.applied, n as int) =~= self@.migrations.skip(
                self@.applied,
            ));
        }
        v
    }

    /// Whether the store is ready for queries: nothing outstanding.
    pub fn is_migrated(&self) -> (r: bool)
        ensures
            r == (self@.applied == self@.migrations.len()),
    {
        self.applied == self.migrations.len()
    }

    /// Applies every outstanding migration, in version order. Safe to run
    /// against an already-migrated store: nothing is outstanding, so
    /// nothing changes.
    pub fn migrate(&mut self)
        requires
            old(self).wf(),
        ensures
            final (self).wf(),
            final (self)@ == spec_migrate(old(self)@),
    {
        self.applied = self.migrations.len();
        proof {
            assert(self@ =~= spec_migrate(old(self)@));
        }
    }

    /// Composes `register` with one migration pass: yields a store model
    /// only if registration succeeds, and then one with nothing
    /// outstanding.
    pub fn register_and_migrate(args: &Args, versions: Vec<u64>, already_applied: usize) -> (r:
        Result<Database, DatabaseError>)
        ensures
            match r {
                Ok(d) => {
                    &&& d.wf()
                    &&& base_name(args.db_path@).len() > 0
                    &&& versions@.no_duplicates()
                    &&& already_applied <= versions@.len()
                    &&& d@.uri == uri_spec(args.db_path@)
                    &&& d@.migrations.to_multiset() == versions@.to_multiset()
                    &&& d@.migrations.len() == versions@.len()
                    &&& d@.applied == d@.migrations.len()
                },
                Err(DatabaseError::NoParent { path }) => {
                    &&& base_name(args.db_path@).len() == 0
                    &&& path@ == args.db_path@
                },
                Err(DatabaseError::DuplicateVersion { version }) => {
                    &&& base_name(args.db_path@).len() > 0
                    &&& !versions@.no_duplicates()
                    &&& versions@.contains(version)
                },
                Err(DatabaseError::SchemaAhead { applied, available }) => {
                    &&& base_name(args.db_path@).len() > 0
                    &&& versions@.no_duplicates()
                    &&& already_applied > versions@.len()
                    &&& applied == already_applied
                    &&& available == versions@.len()
                },
            },
    {
        let mut database = match Database::register(args, versions, already_applied) {
            Ok(d) => d,
            Err(e) => {
                return Err(e);
            },
        };
        database.migrate();
        Ok(database)
    }
}

/// Migration is idempotent: a second pass over an already-migrated store
/// is a no-op, leaving the schema state exactly as one pass left it.
pub proof fn lemma_migrate_idempotent(d: DatabaseView)
    ensures
        spec_migrate(spec_migrate(d)) == spec_migrate(d),
{
    assert(spec_migrate(spec_migrate(d)) =~= spec_migrate(d));
}

} // verus!
