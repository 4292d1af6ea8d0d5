use wara_backend::errors::settle;
use wara_backend::migrations::{
    advisory_lock_statement, advisory_unlock_statement,
    checksum, migration_versions, schema_setup, SchemaSetup, modification_message, plan_migrations,
    report_of, AppliedMigration, Migration, MigrationReport, MigrationStep,
};

fn catalog() -> Vec<Migration> {
    vec![
        Migration { version: "0001_baseline".to_string(), sql: "CREATE TABLE a (id int);".to_string() },
        Migration { version: "0002_more".to_string(), sql: "CREATE TABLE b (id int);".to_string() },
    ]
}

fn history_after(plan: &[MigrationStep], mut rows: Vec<AppliedMigration>) -> Vec<AppliedMigration> {
    for step in plan {
        if let MigrationStep::Apply { version, checksum } = step {
            rows.push(AppliedMigration { version: version.clone(), checksum: checksum.clone() });
        }
    }
    rows
}

#[test]
fn checksum_is_stable_and_hex() {
    let value = checksum("SELECT 1;");
    assert_eq!(value.len(), 64);
    assert_eq!(value, checksum("SELECT 1;"));
    assert!(value.chars().all(|c| c.is_ascii_hexdigit()));
}

#[test]
fn checksum_is_lower_case_sha256() {
    assert_eq!(
        checksum(""),
        "e3b0c44298fc1c149afbf4c8996fb92427ae41e4649b934ca495991b7852b855"
    );
    assert_eq!(
        checksum("abc"),
        "ba7816bf8f01cfea414140de5dae2223b00361a396177a9cb410ff61f20015ad"
    );
}

#[test]
fn migration_versions_are_ordered_and_unique() {
    let versions = migration_versions();
    let mut previous: Option<&str> = None;
    for version in &versions {
        if let Some(prev) = previous {
            assert!(
                prev < version.as_str(),
                "migrations must be ordered and unique: {prev} >= {}",
                version
            );
        }
        previous = Some(version.as_str());
    }
    assert_eq!(versions, vec!["0001_baseline".to_string()]);
}

#[test]
fn fresh_history_applies_every_migration_in_order() {
    let plan = plan_migrations(&catalog(), &Vec::new());
    let report = report_of(&plan);
    assert_eq!(report.applied, vec!["0001_baseline".to_string(), "0002_more".to_string()]);
    assert_eq!(report.already_current, 0);
    assert!(!report.is_up_to_date());
    match &plan[0] {
        MigrationStep::Apply { checksum: c, .. } => assert_eq!(c, &checksum("CREATE TABLE a (id int);")),
        other => panic!("unexpected step {other:?}"),
    }
}

#[test]
fn rerun_after_success_is_up_to_date() {
    let first = plan_migrations(&catalog(), &Vec::new());
    let rows = history_after(&first, Vec::new());
    let second = plan_migrations(&catalog(), &rows);
    let report = report_of(&second);
    assert!(report.applied.is_empty());
    assert!(report.is_up_to_date());
    assert_eq!(report.already_current, 2);
}

#[test]
fn partially_applied_history_applies_only_the_rest() {
    let rows = vec![AppliedMigration {
        version: "0001_baseline".to_string(),
        checksum: checksum("CREATE TABLE a (id int);"),
    }];
    let report = report_of(&plan_migrations(&catalog(), &rows));
    assert_eq!(report.applied, vec!["0002_more".to_string()]);
    assert_eq!(report.already_current, 1);
}

#[test]
fn modified_applied_migration_stops_the_plan() {
    let rows = vec![AppliedMigration {
        version: "0001_baseline".to_string(),
        checksum: "tampered".to_string(),
    }];
    let plan = plan_migrations(&catalog(), &rows);
    assert_eq!(plan.len(), 1);
    match &plan[0] {
        MigrationStep::Modified { version, recorded, expected } => {
            assert_eq!(version, "0001_baseline");
            assert_eq!(recorded, "tampered");
            let message = modification_message(version, recorded, expected);
            assert!(message.contains("modified after being applied"), "unexpected error: {message}");
            assert_eq!(
                message,
                format!(
                    "migration 0001_baseline was modified after being applied (recorded checksum tampered != current {}); migrations must be append-only",
                    expected
                )
            );
        }
        other => panic!("unexpected step {other:?}"),
    }
}

#[test]
fn modification_after_applied_migrations_keeps_earlier_steps() {
    let rows = vec![AppliedMigration { version: "0002_more".to_string(), checksum: "x".to_string() }];
    let plan = plan_migrations(&catalog(), &rows);
    assert_eq!(plan.len(), 2);
    assert!(matches!(plan[0], MigrationStep::Apply { .. }));
    assert!(matches!(plan[1], MigrationStep::Modified { .. }));
}

#[test]
fn locked_run_prefers_the_migration_error() {
    let report = MigrationReport { applied: vec![], already_current: 1 };
    assert_eq!(settle::<MigrationReport, &str>(Err("run"), Err("unlock")), Err("run"));
    assert_eq!(settle::<MigrationReport, &str>(Ok(report.clone()), Err("unlock")), Err("unlock"));
    assert_eq!(settle::<MigrationReport, &str>(Ok(report.clone()), Ok(())), Ok(report));
}

#[test]
fn schema_setup_precedence() {
    assert_eq!(schema_setup(true, true), SchemaSetup::PushSchema);
    assert_eq!(schema_setup(true, false), SchemaSetup::PushSchema);
    assert_eq!(schema_setup(false, true), SchemaSetup::Migrate);
    assert_eq!(schema_setup(false, false), SchemaSetup::Untouched);
}

#[test]
fn up_to_date_means_nothing_applied() {
    assert!(MigrationReport { applied: vec![], already_current: 3 }.is_up_to_date());
    assert!(!MigrationReport { applied: vec!["v".to_string()], already_current: 0 }.is_up_to_date());
}

#[test]
fn advisory_lock_statements_name_the_key() {
    assert_eq!(advisory_lock_statement(), "SELECT pg_advisory_lock(8602282526027376385)");
    assert_eq!(advisory_unlock_statement(), "SELECT pg_advisory_unlock(8602282526027376385)");
}
