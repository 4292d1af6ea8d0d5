//! Versioned schema migrations: the catalog, the checksums that guard
//! applied migrations against edits, and the plan of what a run applies.
//!
//! A run reads the history table once, then walks the catalog in order:
//! a migration already recorded with the same checksum is left alone, one
//! recorded with another checksum stops the run, and any other is applied
//! and recorded. The plan below is that walk, computed up front; the caller
//! performs its steps in order.

use vstd::prelude::*;
use vstd::string::*;

use crate::hashing::{hex_lower, lemma_hex_lower_injective, lemma_hex_lower_shape, sha256_of_text, sha256_text, to_hex_lower,
    is_lower_hex_digit};
use crate::text::{owned, push_char, str_equal};

verus! {

/// The advisory lock key held while migrations run, so that concurrent boots
/// or deploys wait for each other instead of racing on the schema.
pub const ADVISORY_LOCK_KEY: u64 = 0x7761_7261_6d69_6701;

/// The decimal digit character of a value below ten.
pub open spec fn digit_char(d: nat) -> char {
    (48 + d) as char
}

/// The decimal representation of a natural number, without leading zeros.
pub open spec fn decimal_text(n: nat) -> Seq<char>
    decreases n,
{
    if n < 10 {
        seq![digit_char(n)]
    } else {
        decimal_text(n / 10).push(digit_char(n % 10))
    }
}

fn append_decimal(s: &mut String, n: u64)
    ensures
        final(s)@ == old(s)@ + decimal_text(n as nat),
    decreases n,
{
    if n >= 10 {
        append_decimal(s, n / 10);
    }
    let d: u8 = (n % 10) as u8;
    push_char(s, (48 + d) as char);
    assert(s@ =~= old(s)@ + decimal_text(n as nat));
}

/// The statement that takes the migration lock.
pub open spec fn lock_statement_text() -> Seq<char> {
    "SELECT pg_advisory_lock("@ + decimal_text(ADVISORY_LOCK_KEY as nat) + ")"@
}

/// The statement that releases the migration lock.
pub open spec fn unlock_statement_text() -> Seq<char> {
    "SELECT pg_advisory_unlock("@ + decimal_text(ADVISORY_LOCK_KEY as nat) + ")"@
}

/// The statement that takes the migration lock.
pub fn advisory_lock_statement() -> (r: String)
    ensures
        r@ == lock_statement_text(),
{
    let mut r = owned("SELECT pg_advisory_lock(");
    append_decimal(&mut r, ADVISORY_LOCK_KEY);
    r.append(")");
    r
}

/// The statement that releases the migration lock.
pub fn advisory_unlock_statement() -> (r: String)
    ensures
        r@ == unlock_statement_text(),
{
    let mut r = owned("SELECT pg_advisory_unlock(");
    append_decimal(&mut r, ADVISORY_LOCK_KEY);
    r.append(")");
    r
}

/// A migration of the catalog: its version and its SQL text.
#[derive(Debug, Clone)]
pub struct Migration {
    pub version: String,
    pub sql: String,
}

/// A row of the migration history table: a version and the checksum it was
/// applied with.
#[derive(Debug, Clone)]
pub struct AppliedMigration {
    pub version: String,
    pub checksum: String,
}

/// Summary of a migration run.
#[derive(Debug, Clone, PartialEq, Eq)]
pub struct MigrationReport {
    /// Versions applied during this run, in order.
    pub applied: Vec<String>,
    /// Number of migrations that were already applied and left untouched.
    pub already_current: usize,
}

impl MigrationReport {
    /// Whether the run applied nothing.
    pub fn is_up_to_date(&self) -> (r: bool)
        ensures
            r == (self.applied@.len() == 0),
    {
        self.applied.len() == 0
    }
}

/// One step of a migration run.
#[derive(Debug, Clone)]
pub enum MigrationStep {
    /// Recorded with the same checksum: left alone.
    Current { version: String },
    /// Not recorded: execute the SQL, then record the version with `checksum`.
    Apply { version: String, checksum: String },
    /// Recorded with another checksum: the run stops here with an error.
    Modified { version: String, recorded: String, expected: String },
}

/// What a step is, over plain text.
pub enum StepView {
    Current(Seq<char>),
    Apply(Seq<char>, Seq<char>),
    Modified(Seq<char>, Seq<char>, Seq<char>),
}

impl View for MigrationStep {
    type V = StepView;

    open spec fn view(&self) -> StepView {
        match self {
            MigrationStep::Current { version } => StepView::Current(version@),
            MigrationStep::Apply { version, checksum } => StepView::Apply(version@, checksum@),
            MigrationStep::Modified { version, recorded, expected } => StepView::Modified(
                version@,
                recorded@,
                expected@,
            ),
        }
    }
}

/// A catalog entry over plain text: (version, sql).
pub open spec fn migration_text(m: Migration) -> (Seq<char>, Seq<char>) {
    (m.version@, m.sql@)
}

/// A history row over plain text: (version, checksum).
pub open spec fn applied_text(a: AppliedMigration) -> (Seq<char>, Seq<char>) {
    (a.version@, a.checksum@)
}

/// The steps of a plan over plain text.
pub open spec fn steps_text(steps: Seq<MigrationStep>) -> Seq<StepView> {
    steps.map_values(|s: MigrationStep| s@)
}

/// The checksum of a migration: the lower-case hex SHA-256 of its SQL text.
pub open spec fn checksum_of(sql: Seq<char>) -> Seq<char> {
    hex_lower(sha256_of_text(sql))
}

/// The checksum that the first history row for `version` records, if any.
pub open spec fn recorded_checksum(
    rows: Seq<(Seq<char>, Seq<char>)>,
    version: Seq<char>,
) -> Option<Seq<char>>
    decreases rows.len(),
{
    if rows.len() == 0 {
        None
    } else if rows[0].0 == version {
        Some(rows[0].1)
    } else {
        recorded_checksum(rows.drop_first(), version)
    }
}

/// The steps of a run of `migrations` (version, sql) against the history
/// `rows` (version, checksum), in catalog order, ending at the first
/// migration whose recorded checksum differs.
pub open spec fn migration_plan(
    migrations: Seq<(Seq<char>, Seq<char>)>,
    rows: Seq<(Seq<char>, Seq<char>)>,
) -> Seq<StepView>
    decreases migrations.len(),
{
    if migrations.len() == 0 {
        Seq::empty()
    } else {
        let version = migrations[0].0;
        let expected = checksum_of(migrations[0].1);
        match recorded_checksum(rows, version) {
            Some(recorded) => if recorded != expected {
                seq![StepView::Modified(version, recorded, expected)]
            } else {
                seq![StepView::Current(version)] + migration_plan(migrations.drop_first(), rows)
            },
            None => seq![StepView::Apply(version, expected)] + migration_plan(
                migrations.drop_first(),
                rows,
            ),
        }
    }
}

/// Whether a plan stops at a modified migration.
pub open spec fn plan_rejects(plan: Seq<StepView>) -> bool {
    exists|i: int| 0 <= i < plan.len() && #[trigger] plan[i] is Modified
}

/// The versions that a plan applies, in order.
pub open spec fn applied_versions(plan: Seq<StepView>) -> Seq<Seq<char>>
    decreases plan.len(),
{
    if plan.len() == 0 {
        Seq::empty()
    } else {
        let rest = applied_versions(plan.drop_last());
        match plan.last() {
            StepView::Apply(version, _) => rest.push(version),
            _ => rest,
        }
    }
}

/// The history rows that a plan adds, in order.
pub open spec fn applied_rows(plan: Seq<StepView>) -> Seq<(Seq<char>, Seq<char>)>
    decreases plan.len(),
{
    if plan.len() == 0 {
        Seq::empty()
    } else {
        let rest = applied_rows(plan.drop_last());
        match plan.last() {
            StepView::Apply(version, checksum) => rest.push((version, checksum)),
            _ => rest,
        }
    }
}

/// How many migrations a plan leaves alone because they are current.
pub open spec fn current_count(plan: Seq<StepView>) -> nat
    decreases plan.len(),
{
    if plan.len() == 0 {
        0
    } else {
        let rest = current_count(plan.drop_last());
        match plan.last() {
            StepView::Current(_) => rest + 1,
            _ => rest,
        }
    }
}

/// Lexicographic order of texts, character by character.
pub open spec fn text_less(a: Seq<char>, b: Seq<char>) -> bool
    decreases a.len(),
{
    if b.len() == 0 {
        false
    } else if a.len() == 0 {
        true
    } else if a[0] != b[0] {
        a[0] < b[0]
    } else {
        text_less(a.drop_first(), b.drop_first())
    }
}

/// The versions of the catalog, in the order they apply.
pub open spec fn catalog_versions() -> Seq<Seq<char>> {
    seq!["0001_baseline"@]
}

/// The versions of the catalog, in the order they apply. Each is strictly
/// greater than the one before, so none repeats.
pub fn migration_versions() -> (r: Vec<String>)
    ensures
        r.deep_view() == catalog_versions(),
        forall|i: int, j: int|
            0 <= i < j < r@.len() ==> text_less(#[trigger] r@[i]@, #[trigger] r@[j]@),
{
    let mut r: Vec<String> = Vec::new();
    r.push(owned("0001_baseline"));
    assert(r.deep_view() =~= catalog_versions());
    r
}

/// The checksum of a migration's SQL text: 64 lower-case hex digits.
pub fn checksum(sql: &str) -> (r: String)
    ensures
        r@ == checksum_of(sql@),
        r@ == hex_lower(sha256_of_text(sql@)),
        r@.len() == 64,
        forall|i: int| 0 <= i < r@.len() ==> is_lower_hex_digit(#[trigger] r@[i]),
{
    let digest = sha256_text(sql);
    proof {
        lemma_hex_lower_shape(digest@);
    }
    to_hex_lower(digest.as_slice())
}

/// A checksum is the hex digest of the exact SQL text, with nothing trimmed
/// or changed: texts whose SHA-256 digests differ (in particular any two
/// different texts, barring a SHA-256 collision) get different checksums, and
/// texts with the same checksum have the same digest.
pub proof fn lemma_checksum_is_digest_of_exact_text(a: Seq<char>, b: Seq<char>)
    ensures
        checksum_of(a) == hex_lower(sha256_of_text(a)),
        sha256_of_text(a) != sha256_of_text(b) ==> checksum_of(a) != checksum_of(b),
        checksum_of(a) == checksum_of(b) ==> sha256_of_text(a) == sha256_of_text(b),
{
    if checksum_of(a) == checksum_of(b) {
        lemma_hex_lower_injective(sha256_of_text(a), sha256_of_text(b));
    }
}

/// The checksum recorded by the first history row for `version`, if any.
fn find_recorded(rows: &Vec<AppliedMigration>, version: &str) -> (r: Option<String>)
    ensures
        opt_checksum(r) == recorded_checksum(rows@.map_values(|a: AppliedMigration| applied_text(a)), version@),
{
    let ghost all = rows@.map_values(|a: AppliedMigration| applied_text(a));
    let n: usize = rows.len();
    let mut i: usize = 0;
    assert(all.skip(0) =~= all);
    while i < n
        invariant
            n == rows@.len(),
            all == rows@.map_values(|a: AppliedMigration| applied_text(a)),
            i <= n,
            recorded_checksum(all, version@) == recorded_checksum(all.skip(i as int), version@),
        decreases n - i,
    {
        assert(all.skip(i as int)[0] == applied_text(rows@[i as int]));
        if str_equal(rows[i].version.as_str(), version) {
            return Some(rows[i].checksum.clone());
        }
        assert(all.skip(i as int).drop_first() =~= all.skip(i + 1));
        i = i + 1;
    }
    None
}

/// The view of an optional checksum.
pub open spec fn opt_checksum(s: Option<String>) -> Option<Seq<char>> {
    match s {
        Some(v) => Some(v@),
        None => None,
    }
}

/// The steps of a run of `migrations` against the history `rows`, as
/// `migration_plan` describes.
pub fn plan_migrations(migrations: &Vec<Migration>, rows: &Vec<AppliedMigration>) -> (r: Vec<
    MigrationStep,
>)
    ensures
        steps_text(r@) == migration_plan(
            migrations@.map_values(|m: Migration| migration_text(m)),
            rows@.map_values(|a: AppliedMigration| applied_text(a)),
        ),
{
    let ghost migs = migrations@.map_values(|m: Migration| migration_text(m));
    let ghost hist = rows@.map_values(|a: AppliedMigration| applied_text(a));
    let mut r: Vec<MigrationStep> = Vec::new();
    let n: usize = migrations.len();
    let mut i: usize = 0;
    assert(migs.skip(0) =~= migs);
    assert(steps_text(r@) =~= Seq::<StepView>::empty());
    assert(Seq::<StepView>::empty() + migration_plan(migs, hist) =~= migration_plan(migs, hist));
    while i < n
        invariant
            n == migrations@.len(),
            migs == migrations@.map_values(|m: Migration| migration_text(m)),
            hist == rows@.map_values(|a: AppliedMigration| applied_text(a)),
            i <= n,
            steps_text(r@) + migration_plan(migs.skip(i as int), hist) == migration_plan(
                migs,
                hist,
            ),
        decreases n - i,
    {
        let migration = &migrations[i];
        let expected = checksum(migration.sql.as_str());
        let ghost rest = migs.skip(i as int);
        proof {
            assert(rest[0] == migration_text(migrations@[i as int]));
            assert(rest.drop_first() =~= migs.skip(i + 1));
        }
        match find_recorded(rows, migration.version.as_str()) {
            Some(recorded) => {
                if str_equal(recorded.as_str(), expected.as_str()) {
                    r.push(MigrationStep::Current { version: migration.version.clone() });
                    proof {
                        assert(steps_text(r@) =~= steps_text(r@.drop_last()) + seq![
                            StepView::Current(migration.version@),
                        ]);
                    }
                } else {
                    r.push(
                        MigrationStep::Modified {
                            version: migration.version.clone(),
                            recorded,
                            expected,
                        },
                    );
                    proof {
                        assert(steps_text(r@) =~= steps_text(r@.drop_last()) + migration_plan(
                            rest,
                            hist,
                        ));
                    }
                    assert(steps_text(r@) == migration_plan(migs, hist));
                    return r;
                }
            },
            None => {
                r.push(
                    MigrationStep::Apply { version: migration.version.clone(), checksum: expected },
                );
                proof {
                    assert(steps_text(r@) =~= steps_text(r@.drop_last()) + seq![
                        StepView::Apply(migration.version@, checksum_of(migration.sql@)),
                    ]);
                }
            },
        }
        i = i + 1;
    }
    assert(migs.skip(n as int) =~= Seq::<(Seq<char>, Seq<char>)>::empty());
    assert(steps_text(r@) + Seq::<StepView>::empty() =~= steps_text(r@));
    r
}

/// The report of a plan that ran to its end: the versions it applied, in
/// order, and how many migrations were already current.
pub fn report_of(plan: &Vec<MigrationStep>) -> (r: MigrationReport)
    ensures
        r.applied.deep_view() == applied_versions(steps_text(plan@)),
        r.already_current == current_count(steps_text(plan@)),
{
    let ghost steps = steps_text(plan@);
    let mut applied: Vec<String> = Vec::new();
    let mut already_current: usize = 0;
    let n: usize = plan.len();
    let mut i: usize = 0;
    while i < n
        invariant
            n == plan@.len(),
            steps == steps_text(plan@),
            i <= n,
            applied.deep_view() == applied_versions(steps.subrange(0, i as int)),
            already_current == current_count(steps.subrange(0, i as int)),
            already_current <= i,
        decreases n - i,
    {
        proof {
            let next = steps.subrange(0, i + 1);
            assert(next.drop_last() =~= steps.subrange(0, i as int));
            assert(next.last() == plan@[i as int]@);
        }
        match &plan[i] {
            MigrationStep::Current { .. } => {
                already_current = already_current + 1;
            },
            MigrationStep::Apply { version, .. } => {
                applied.push(version.clone());
                assert(applied.deep_view() =~= applied_versions(steps.subrange(0, i + 1)));
            },
            MigrationStep::Modified { .. } => {},
        }
        i = i + 1;
    }
    assert(steps.subrange(0, n as int) =~= steps);
    MigrationReport { applied, already_current }
}

/// The text of the error that stops a run at a modified migration.
pub open spec fn modification_text(
    version: Seq<char>,
    recorded: Seq<char>,
    expected: Seq<char>,
) -> Seq<char> {
    "migration "@ + version + " was modified after being applied (recorded checksum "@ + recorded
        + " != current "@ + expected + "); migrations must be append-only"@
}

/// The text of the error that stops a run at a modified migration.
pub fn modification_message(version: &str, recorded: &str, expected: &str) -> (r: String)
    ensures
        r@ == modification_text(version@, recorded@, expected@),
{
    let mut r = owned("migration ");
    r.append(version);
    r.append(" was modified after being applied (recorded checksum ");
    r.append(recorded);
    r.append(" != current ");
    r.append(expected);
    r.append("); migrations must be append-only");
    r
}

/// How start-up prepares the database schema.
#[derive(Debug, Clone, Copy, PartialEq, Eq, Structural)]
pub enum SchemaSetup {
    /// Let the ORM create the schema directly (a development escape hatch).
    PushSchema,
    /// Apply the pending versioned migrations.
    Migrate,
    /// Leave the schema alone; an operator runs the migrations separately.
    Untouched,
}

/// The schema set-up that start-up performs: an explicit push wins, then
/// automatic migration; with both off nothing is done. There is never a
/// fallback from migrating to pushing.
pub fn schema_setup(push_schema: bool, auto_migrate: bool) -> (r: SchemaSetup)
    ensures
        r == (if push_schema {
            SchemaSetup::PushSchema
        } else if auto_migrate {
            SchemaSetup::Migrate
        } else {
            SchemaSetup::Untouched
        }),
{
    if push_schema {
        SchemaSetup::PushSchema
    } else if auto_migrate {
        SchemaSetup::Migrate
    } else {
        SchemaSetup::Untouched
    }
}

/// Whether the migration at `i` is recorded with a checksum other than its own.
pub open spec fn modified_at(
    migrations: Seq<(Seq<char>, Seq<char>)>,
    rows: Seq<(Seq<char>, Seq<char>)>,
    i: int,
) -> bool {
    match recorded_checksum(rows, migrations[i].0) {
        Some(recorded) => recorded != checksum_of(migrations[i].1),
        None => false,
    }
}

/// Whether no two migrations share a version.
pub open spec fn versions_distinct(migrations: Seq<(Seq<char>, Seq<char>)>) -> bool {
    forall|i: int, j: int|
        0 <= i < migrations.len() && 0 <= j < migrations.len() && i != j ==> #[trigger] migrations[i].0
            != #[trigger] migrations[j].0
}

proof fn lemma_tallies_concat(a: Seq<StepView>, b: Seq<StepView>)
    ensures
        applied_versions(a + b) == applied_versions(a) + applied_versions(b),
        applied_rows(a + b) == applied_rows(a) + applied_rows(b),
        current_count(a + b) == current_count(a) + current_count(b),
    decreases b.len(),
{
    if b.len() == 0 {
        assert(a + b =~= a);
        assert(applied_versions(a) + Seq::<Seq<char>>::empty() =~= applied_versions(a));
        assert(applied_rows(a) + Seq::<(Seq<char>, Seq<char>)>::empty() =~= applied_rows(a));
    } else {
        lemma_tallies_concat(a, b.drop_last());
        assert((a + b).drop_last() =~= a + b.drop_last());
        assert((a + b).last() == b.last());
        match b.last() {
            StepView::Apply(v, c) => {
                assert(applied_versions(a) + applied_versions(b) =~= (applied_versions(a)
                    + applied_versions(b.drop_last())).push(v));
                assert(applied_rows(a) + applied_rows(b) =~= (applied_rows(a) + applied_rows(
                    b.drop_last(),
                )).push((v, c)));
            },
            _ => {},
        }
    }
}

proof fn lemma_recorded_concat(
    a: Seq<(Seq<char>, Seq<char>)>,
    b: Seq<(Seq<char>, Seq<char>)>,
    v: Seq<char>,
)
    ensures
        recorded_checksum(a + b, v) == (match recorded_checksum(a, v) {
            Some(c) => Some(c),
            None => recorded_checksum(b, v),
        }),
    decreases a.len(),
{
    if a.len() == 0 {
        assert(a + b =~= b);
    } else {
        assert((a + b)[0] == a[0]);
        assert((a + b).drop_first() =~= a.drop_first() + b);
        lemma_recorded_concat(a.drop_first(), b, v);
    }
}

proof fn lemma_single_tallies(s: StepView)
    ensures
        applied_versions(seq![s]) == (match s {
            StepView::Apply(v, _) => seq![v],
            _ => Seq::<Seq<char>>::empty(),
        }),
        applied_rows(seq![s]) == (match s {
            StepView::Apply(v, c) => seq![(v, c)],
            _ => Seq::<(Seq<char>, Seq<char>)>::empty(),
        }),
        current_count(seq![s]) == (if s is Current {
            1nat
        } else {
            0nat
        }),
{
    assert(seq![s].drop_last() =~= Seq::<StepView>::empty());
    assert(seq![s].last() == s);
    assert(applied_versions(Seq::<StepView>::empty()) == Seq::<Seq<char>>::empty());
    assert(applied_rows(Seq::<StepView>::empty()) == Seq::<(Seq<char>, Seq<char>)>::empty());
    assert(current_count(Seq::<StepView>::empty()) == 0);
    match s {
        StepView::Apply(v, c) => {
            assert(Seq::<Seq<char>>::empty().push(v) =~= seq![v]);
            assert(Seq::<(Seq<char>, Seq<char>)>::empty().push((v, c)) =~= seq![(v, c)]);
        },
        _ => {},
    }
}

proof fn lemma_rejects_suffix(s: StepView, rest: Seq<StepView>)
    ensures
        plan_rejects(seq![s] + rest) == (s is Modified || plan_rejects(rest)),
{
    let whole = seq![s] + rest;
    if plan_rejects(rest) {
        let k = choose|k: int| 0 <= k < rest.len() && #[trigger] rest[k] is Modified;
        assert(whole[k + 1] == rest[k]);
    }
    if s is Modified {
        assert(whole[0] == s);
    }
    if plan_rejects(whole) {
        let k = choose|k: int| 0 <= k < whole.len() && #[trigger] whole[k] is Modified;
        if k > 0 {
            assert(rest[k - 1] == whole[k]);
        }
    }
}

proof fn lemma_plan_head(migrations: Seq<(Seq<char>, Seq<char>)>, rows: Seq<(Seq<char>, Seq<char>)>)
    requires
        migrations.len() > 0,
    ensures
        ({
            let version = migrations[0].0;
            let expected = checksum_of(migrations[0].1);
            let plan = migration_plan(migrations, rows);
            let rest = migration_plan(migrations.drop_first(), rows);
            &&& modified_at(migrations, rows, 0) ==> plan == seq![
                StepView::Modified(version, recorded_checksum(rows, version)->Some_0, expected),
            ]
            &&& (!modified_at(migrations, rows, 0) && recorded_checksum(rows, version) is Some)
                ==> plan == seq![StepView::Current(version)] + rest
            &&& recorded_checksum(rows, version) is None ==> plan == seq![
                StepView::Apply(version, expected),
            ] + rest
        }),
{
}

/// A run stops at a modified migration exactly when some migration of the
/// catalog is recorded with a checksum other than its own.
pub proof fn lemma_modified_migration_is_rejected(
    migrations: Seq<(Seq<char>, Seq<char>)>,
    rows: Seq<(Seq<char>, Seq<char>)>,
)
    ensures
        plan_rejects(migration_plan(migrations, rows)) <==> exists|i: int|
            0 <= i < migrations.len() && #[trigger] modified_at(migrations, rows, i),
    decreases migrations.len(),
{
    let plan = migration_plan(migrations, rows);
    if migrations.len() == 0 {
        assert(plan.len() == 0);
    } else {
        let rest_migs = migrations.drop_first();
        lemma_modified_migration_is_rejected(rest_migs, rows);
        lemma_plan_head(migrations, rows);
        let version = migrations[0].0;
        let rest = migration_plan(rest_migs, rows);
        assert forall|i: int| 0 < i < migrations.len() implies modified_at(migrations, rows, i)
            == modified_at(rest_migs, rows, i - 1) by {
            assert(rest_migs[i - 1] == migrations[i]);
        }
        if modified_at(migrations, rows, 0) {
            assert(plan[0] is Modified);
        } else {
            let head = if recorded_checksum(rows, version) is Some {
                StepView::Current(version)
            } else {
                StepView::Apply(version, checksum_of(migrations[0].1))
            };
            assert(plan == seq![head] + rest);
            lemma_rejects_suffix(head, rest);
            if exists|i: int| 0 <= i < migrations.len() && #[trigger] modified_at(migrations, rows, i) {
                let i = choose|i: int| 0 <= i < migrations.len() && #[trigger] modified_at(migrations, rows, i);
                assert(modified_at(rest_migs, rows, i - 1));
            }
            if exists|i: int| 0 <= i < rest_migs.len() && #[trigger] modified_at(rest_migs, rows, i) {
                let i = choose|i: int| 0 <= i < rest_migs.len() && #[trigger] modified_at(rest_migs, rows, i);
                assert(modified_at(migrations, rows, i + 1));
            }
        }
    }
}

/// Against an empty history, a run applies every migration of the catalog,
/// in order, and finds none current.
pub proof fn lemma_fresh_history_applies_all(migrations: Seq<(Seq<char>, Seq<char>)>)
    ensures
        !plan_rejects(migration_plan(migrations, Seq::empty())),
        applied_versions(migration_plan(migrations, Seq::empty())) == migrations.map_values(
            |m: (Seq<char>, Seq<char>)| m.0,
        ),
        current_count(migration_plan(migrations, Seq::empty())) == 0,
    decreases migrations.len(),
{
    let rows = Seq::<(Seq<char>, Seq<char>)>::empty();
    let plan = migration_plan(migrations, rows);
    if migrations.len() == 0 {
        assert(plan.len() == 0);
        assert(migrations.map_values(|m: (Seq<char>, Seq<char>)| m.0) =~= Seq::<Seq<char>>::empty());
    } else {
        let rest_migs = migrations.drop_first();
        lemma_fresh_history_applies_all(rest_migs);
        lemma_plan_head(migrations, rows);
        let head = StepView::Apply(migrations[0].0, checksum_of(migrations[0].1));
        let rest = migration_plan(rest_migs, rows);
        assert(plan == seq![head] + rest);
        lemma_tallies_concat(seq![head], rest);
        lemma_single_tallies(head);
        lemma_rejects_suffix(head, rest);
        assert(migrations.map_values(|m: (Seq<char>, Seq<char>)| m.0) =~= seq![migrations[0].0]
            + rest_migs.map_values(|m: (Seq<char>, Seq<char>)| m.0));
    }
}

proof fn lemma_rerun_with_extra(
    migrations: Seq<(Seq<char>, Seq<char>)>,
    rows: Seq<(Seq<char>, Seq<char>)>,
    extra: Seq<(Seq<char>, Seq<char>)>,
)
    requires
        versions_distinct(migrations),
        !plan_rejects(migration_plan(migrations, rows)),
        forall|i: int| 0 <= i < migrations.len() ==> recorded_checksum(extra, #[trigger] migrations[i].0) is None,
    ensures
        ({
            let again = migration_plan(
                migrations,
                rows + (extra + applied_rows(migration_plan(migrations, rows))),
            );
            &&& again.len() == migrations.len()
            &&& forall|k: int| 0 <= k < again.len() ==> #[trigger] again[k] is Current
        }),
    decreases migrations.len(),
{
    let plan = migration_plan(migrations, rows);
    let history = rows + (extra + applied_rows(plan));
    let again = migration_plan(migrations, history);
    if migrations.len() == 0 {
        assert(again.len() == 0);
    } else {
        let version = migrations[0].0;
        let expected = checksum_of(migrations[0].1);
        let rest_migs = migrations.drop_first();
        let rest = migration_plan(rest_migs, rows);
        lemma_plan_head(migrations, rows);
        lemma_plan_head(migrations, history);
        if modified_at(migrations, rows, 0) {
            assert(plan[0] is Modified);
        }
        let head = if recorded_checksum(rows, version) is Some {
            StepView::Current(version)
        } else {
            StepView::Apply(version, expected)
        };
        assert(plan == seq![head] + rest);
        lemma_rejects_suffix(head, rest);
        lemma_tallies_concat(seq![head], rest);
        lemma_single_tallies(head);
        let extra2 = extra + applied_rows(seq![head]);
        assert(history =~= rows + (extra2 + applied_rows(rest)));
        // the head is current against the new history
        lemma_recorded_concat(rows, extra + applied_rows(plan), version);
        lemma_recorded_concat(extra, applied_rows(plan), version);
        lemma_recorded_concat(applied_rows(seq![head]), applied_rows(rest), version);
        assert(recorded_checksum(extra, migrations[0].0) is None);
        if recorded_checksum(rows, version) is None {
            let one = seq![(version, expected)];
            assert(one[0].0 == version);
        }
        assert(recorded_checksum(history, version) == Some(expected));
        assert(!modified_at(migrations, history, 0));
        assert(again == seq![StepView::Current(version)] + migration_plan(rest_migs, history));
        // the rest, by induction
        assert forall|i: int| 0 <= i < rest_migs.len() implies recorded_checksum(
            extra2,
            #[trigger] rest_migs[i].0,
        ) is None by {
            assert(rest_migs[i] == migrations[i + 1]);
            assert(migrations[i + 1].0 != migrations[0].0);
            assert(recorded_checksum(extra, migrations[i + 1].0) is None);
            lemma_recorded_concat(extra, applied_rows(seq![head]), rest_migs[i].0);
            if head is Apply {
                let one = seq![(version, expected)];
                assert(applied_rows(seq![head]) == one);
                assert(one[0].0 != rest_migs[i].0);
                assert(one.drop_first() =~= Seq::<(Seq<char>, Seq<char>)>::empty());
                assert(recorded_checksum(one.drop_first(), rest_migs[i].0) is None);
                assert(recorded_checksum(one, rest_migs[i].0) is None);
            } else {
                assert(applied_rows(seq![head]) == Seq::<(Seq<char>, Seq<char>)>::empty());
            }
        }
        assert forall|i: int, j: int|
            0 <= i < rest_migs.len() && 0 <= j < rest_migs.len() && i != j implies #[trigger] rest_migs[i].0
            != #[trigger] rest_migs[j].0 by {
            assert(rest_migs[i] == migrations[i + 1]);
            assert(rest_migs[j] == migrations[j + 1]);
        }
        lemma_rerun_with_extra(rest_migs, rows, extra2);
        let again_rest = migration_plan(rest_migs, history);
        assert forall|k: int| 0 <= k < again.len() implies #[trigger] again[k] is Current by {
            if k > 0 {
                assert(again[k] == again_rest[k - 1]);
            }
        }
    }
}

proof fn lemma_all_current_tallies(plan: Seq<StepView>)
    requires
        forall|k: int| 0 <= k < plan.len() ==> #[trigger] plan[k] is Current,
    ensures
        applied_versions(plan) == Seq::<Seq<char>>::empty(),
        current_count(plan) == plan.len(),
        !plan_rejects(plan),
    decreases plan.len(),
{
    if plan.len() > 0 {
        assert forall|k: int| 0 <= k < plan.drop_last().len() implies #[trigger] plan.drop_last()[k] is Current by {
            assert(plan.drop_last()[k] == plan[k]);
        }
        lemma_all_current_tallies(plan.drop_last());
        assert(plan.last() is Current);
    }
}

/// The plan of a run depends on the history only through the checksum it
/// records for each version, whatever order its rows come in.
pub proof fn lemma_plan_depends_on_recorded_checksums(
    migrations: Seq<(Seq<char>, Seq<char>)>,
    rows: Seq<(Seq<char>, Seq<char>)>,
    other: Seq<(Seq<char>, Seq<char>)>,
)
    requires
        forall|v: Seq<char>| #[trigger] recorded_checksum(rows, v) == recorded_checksum(other, v),
    ensures
        migration_plan(migrations, rows) == migration_plan(migrations, other),
    decreases migrations.len(),
{
    if migrations.len() > 0 {
        lemma_plan_depends_on_recorded_checksums(migrations.drop_first(), rows, other);
        assert(recorded_checksum(rows, migrations[0].0) == recorded_checksum(other, migrations[0].0));
    }
}

/// Re-running right after a run that succeeded changes nothing: once the
/// history records, for every version, what it recorded before plus a row
/// for each migration that the first run applied (in whatever order the
/// rows come back), every migration of the catalog is current, none is
/// applied, and the run is up to date.
pub proof fn lemma_rerun_is_up_to_date(
    migrations: Seq<(Seq<char>, Seq<char>)>,
    rows: Seq<(Seq<char>, Seq<char>)>,
    later: Seq<(Seq<char>, Seq<char>)>,
)
    requires
        versions_distinct(migrations),
        !plan_rejects(migration_plan(migrations, rows)),
        forall|v: Seq<char>| #[trigger] recorded_checksum(later, v) == recorded_checksum(
            rows + applied_rows(migration_plan(migrations, rows)),
            v,
        ),
    ensures
        !plan_rejects(migration_plan(migrations, later)),
        applied_versions(migration_plan(migrations, later)) == Seq::<Seq<char>>::empty(),
        current_count(migration_plan(migrations, later)) == migrations.len(),
{
    let extra = Seq::<(Seq<char>, Seq<char>)>::empty();
    lemma_rerun_with_extra(migrations, rows, extra);
    let plan = migration_plan(migrations, rows);
    assert(extra + applied_rows(plan) =~= applied_rows(plan));
    lemma_plan_depends_on_recorded_checksums(migrations, later, rows + applied_rows(plan));
    lemma_all_current_tallies(migration_plan(migrations, later));
}

/// A run that does not stop accounts for every migration of the catalog:
/// each is either applied or already current.
pub proof fn lemma_run_accounts_for_catalog(
    migrations: Seq<(Seq<char>, Seq<char>)>,
    rows: Seq<(Seq<char>, Seq<char>)>,
)
    requires
        !plan_rejects(migration_plan(migrations, rows)),
    ensures
        applied_versions(migration_plan(migrations, rows)).len() + current_count(
            migration_plan(migrations, rows),
        ) == migrations.len(),
    decreases migrations.len(),
{
    let plan = migration_plan(migrations, rows);
    if migrations.len() == 0 {
        assert(plan.len() == 0);
    } else {
        let version = migrations[0].0;
        let rest_migs = migrations.drop_first();
        let rest = migration_plan(rest_migs, rows);
        lemma_plan_head(migrations, rows);
        if modified_at(migrations, rows, 0) {
            assert(plan[0] is Modified);
        }
        let head = if recorded_checksum(rows, version) is Some {
            StepView::Current(version)
        } else {
            StepView::Apply(version, checksum_of(migrations[0].1))
        };
        assert(plan == seq![head] + rest);
        lemma_rejects_suffix(head, rest);
        lemma_tallies_concat(seq![head], rest);
        lemma_single_tallies(head);
        lemma_run_accounts_for_catalog(rest_migs, rows);
    }
}

proof fn lemma_text_less_irreflexive(a: Seq<char>)
    ensures
        !text_less(a, a),
    decreases a.len(),
{
    if a.len() > 0 {
        lemma_text_less_irreflexive(a.drop_first());
    }
}

/// Versions in strictly increasing order are distinct, so the catalog that
/// `migration_versions` returns never lists a version twice.
pub proof fn lemma_ascending_versions_are_distinct(versions: Seq<Seq<char>>)
    requires
        forall|i: int, j: int|
            0 <= i < j < versions.len() ==> text_less(#[trigger] versions[i], #[trigger] versions[j]),
    ensures
        forall|i: int, j: int|
            0 <= i < versions.len() && 0 <= j < versions.len() && i != j ==> #[trigger] versions[i]
                != #[trigger] versions[j],
{
    assert forall|i: int, j: int|
        0 <= i < versions.len() && 0 <= j < versions.len() && i != j implies #[trigger] versions[i]
        != #[trigger] versions[j] by {
        lemma_text_less_irreflexive(versions[i]);
        if i < j {
            assert(text_less(versions[i], versions[j]));
        } else {
            assert(text_less(versions[j], versions[i]));
        }
    }
}

} // verus!
