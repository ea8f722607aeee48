//! The database subsystem model: location planning, migration ordering,
//! registration errors, and the idempotence of migration.

use urocyon::args::{Args, LogLevel};
use urocyon::database::{order_migrations, plan_pool, Database, DatabaseError};

fn args_with_db_path(db_path: &str) -> Args {
    Args::new(
        "127.0.0.1".to_string(),
        8080,
        db_path.to_string(),
        "logs/app.ndjson".to_string(),
        "migrations".to_string(),
        LogLevel::Info,
    )
}

#[test]
fn plan_names_parent_directory_and_uri() {
    let plan = plan_pool("data/nested/app.sqlite3").unwrap();
    assert_eq!(plan.directory, "data/nested");
    assert_eq!(plan.uri, "file:data/nested/app.sqlite3?mode=rwc");
}

#[test]
fn plan_for_bare_file_needs_no_directory() {
    let plan = plan_pool("app.sqlite3").unwrap();
    assert_eq!(plan.directory, "");
    assert_eq!(plan.uri, "file:app.sqlite3?mode=rwc");
}

#[test]
fn plan_rejects_location_without_file_name() {
    let e = plan_pool("").unwrap_err();
    match e {
        DatabaseError::NoParent { ref path } => assert_eq!(path.as_str(), ""),
        _ => panic!("wrong error"),
    }
    assert_eq!(
        e.message(),
        "Database file at path `` would have no parent."
    );
    let e = plan_pool("data/").unwrap_err();
    assert_eq!(
        e.message(),
        "Database file at path `data/` would have no parent."
    );
}

#[test]
fn migrations_are_ordered_by_version() {
    let ordered = order_migrations(vec![20240301, 20230101, 20231215]).unwrap();
    assert_eq!(ordered, vec![20230101, 20231215, 20240301]);
}

#[test]
fn duplicate_migration_version_is_rejected() {
    let e = order_migrations(vec![3, 1, 3]).unwrap_err();
    match e {
        DatabaseError::DuplicateVersion { version } => assert_eq!(version, 3),
        _ => panic!("wrong error"),
    }
    assert_eq!(
        e.message(),
        "Migration version `3` is listed more than once."
    );
}

#[test]
fn register_builds_an_ordered_partly_applied_store() {
    let args = args_with_db_path("data/app.sqlite3");
    let d = Database::register(&args, vec![3, 1, 2], 2).unwrap();
    assert_eq!(d.uri, "file:data/app.sqlite3?mode=rwc");
    assert_eq!(d.migrations, vec![1, 2, 3]);
    assert_eq!(d.applied, 2);
    assert!(!d.is_migrated());
    assert_eq!(d.outstanding(), vec![3]);
}

#[test]
fn register_rejects_store_ahead_of_available_migrations() {
    let args = args_with_db_path("data/app.sqlite3");
    let e = Database::register(&args, vec![1, 2], 5).unwrap_err();
    match e {
        DatabaseError::SchemaAhead { applied, available } => {
            assert_eq!(applied, 5);
            assert_eq!(available, 2);
        }
        _ => panic!("wrong error"),
    }
    assert_eq!(
        e.message(),
        "The store reports `5` applied migrations but only `2` are available."
    );
}

#[test]
fn migrate_applies_everything_outstanding() {
    let args = args_with_db_path("data/app.sqlite3");
    let mut d = Database::register(&args, vec![2, 1], 0).unwrap();
    assert_eq!(d.outstanding(), vec![1, 2]);
    d.migrate();
    assert!(d.is_migrated());
    assert_eq!(d.outstanding(), Vec::<u64>::new());
}

#[test]
fn migrating_twice_is_idempotent() {
    let args = args_with_db_path("data/app.sqlite3");
    let mut d = Database::register(&args, vec![10, 20], 0).unwrap();
    d.migrate();
    let after_once = (d.uri.clone(), d.migrations.clone(), d.applied);
    d.migrate();
    assert_eq!(d.uri, after_once.0);
    assert_eq!(d.migrations, after_once.1);
    assert_eq!(d.applied, after_once.2);
    assert!(d.is_migrated());
}

#[test]
fn register_and_migrate_yields_a_current_store() {
    let args = args_with_db_path("data/app.sqlite3");
    let d = Database::register_and_migrate(&args, vec![5, 4], 1).unwrap();
    assert!(d.is_migrated());
    assert_eq!(d.migrations, vec![4, 5]);
}

#[test]
fn register_and_migrate_fails_on_bad_location() {
    let args = args_with_db_path("data/");
    let e = Database::register_and_migrate(&args, vec![1], 0).unwrap_err();
    assert!(matches!(e, DatabaseError::NoParent { .. }));
}
