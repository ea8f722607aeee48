//! The staged assembly pipeline: the full forward path, route overwrite
//! semantics, and the stage-failure messages.

use urocyon::args::{Args, LogLevel};
use urocyon::context::RequestContextExtension;
use urocyon::database::Database;
use urocyon::logs::LogManager;
use urocyon::router::{HttpMethod, MethodBinding, Router};
use urocyon::server::{BuildError, BuildStage, ServerBuilder};

fn sample_args() -> Args {
    Args::new(
        "0.0.0.0".to_string(),
        7654,
        "data/app.sqlite3".to_string(),
        "logs/app.ndjson".to_string(),
        "migrations".to_string(),
        LogLevel::Info,
    )
}

#[test]
fn full_pipeline_yields_decorated_server() {
    let builder = ServerBuilder::new()
        .route("/", MethodBinding { method: HttpMethod::Get, handler: 0 })
        .route("/users", MethodBinding { method: HttpMethod::Post, handler: 1 });
    let args = sample_args();
    let logs = LogManager::register(&args).unwrap();
    let database = Database::register_and_migrate(&args, vec![2, 1], 0).unwrap();
    let server = builder
        .begin_build()
        .config_resolved(args)
        .logging_ready(logs)
        .database_ready(database)
        .listener_bound()
        .assemble();
    assert!(server.router.instrumented);
    assert!(server.router.pool_attached);
    assert_eq!(server.router.dispatch("/", HttpMethod::Get), Some(0));
    assert_eq!(server.router.dispatch("/users", HttpMethod::Post), Some(1));
    assert_eq!(server.router.dispatch("/users", HttpMethod::Get), None);
    assert_eq!(server.bound.address, "0.0.0.0");
    assert_eq!(server.bound.port, 7654);
    assert!(server.database.is_migrated());
}

#[test]
fn pipeline_stops_at_database_ready_before_binding() {
    let args = sample_args();
    let logs = LogManager::register(&args).unwrap();
    let database = Database::register_and_migrate(&args, vec![1], 0).unwrap();
    let p = ServerBuilder::new()
        .begin_build()
        .config_resolved(args)
        .logging_ready(logs)
        .database_ready(database);
    assert_eq!(p.stage, BuildStage::DatabaseReady);
    assert_eq!(p.listener_address(), "0.0.0.0:7654");
}

#[test]
fn reregistering_a_path_and_method_overwrites_the_binding() {
    let router = Router::new()
        .route("/", MethodBinding { method: HttpMethod::Get, handler: 0 })
        .route("/", MethodBinding { method: HttpMethod::Get, handler: 7 });
    assert_eq!(router.dispatch("/", HttpMethod::Get), Some(7));
    assert_eq!(router.routes.len(), 1);
}

#[test]
fn same_path_different_methods_coexist() {
    let router = Router::new()
        .route("/users", MethodBinding { method: HttpMethod::Get, handler: 0 })
        .route("/users", MethodBinding { method: HttpMethod::Post, handler: 1 });
    assert_eq!(router.dispatch("/users", HttpMethod::Get), Some(0));
    assert_eq!(router.dispatch("/users", HttpMethod::Post), Some(1));
    assert_eq!(router.routes.len(), 2);
}

#[test]
fn listener_failure_names_address_and_port() {
    let args = sample_args();
    let logs = LogManager::register(&args).unwrap();
    let database = Database::register_and_migrate(&args, vec![], 0).unwrap();
    let p = ServerBuilder::new()
        .begin_build()
        .config_resolved(args)
        .logging_ready(logs)
        .database_ready(database);
    let e = p.listener_error("connection refused".to_string());
    assert_eq!(
        e.message,
        "Failed to open TcpListener at address `0.0.0.0:7654`."
    );
    assert_eq!(e.cause, "connection refused");
}

#[test]
fn stage_error_constructors_carry_exact_messages() {
    let e = BuildError::logging("disk full".to_string());
    assert_eq!(e.message, "Failed to register logs.");
    let e = BuildError::database("locked".to_string());
    assert_eq!(e.message, "Failed to register and migrate database.");
    let e = BuildError::listener("10.255.255.1", 80, "timed out".to_string());
    assert_eq!(
        e.message,
        "Failed to open TcpListener at address `10.255.255.1:80`."
    );
    let e = BuildError::building("x".to_string());
    assert_eq!(e.message, "Failed to build server.");
    let e = BuildError::serving("y".to_string());
    assert_eq!(e.message, "Failed to serve server.");
}

#[test]
fn describe_chains_message_and_cause() {
    let e = BuildError::logging("disk full".to_string());
    assert_eq!(
        e.describe(),
        "Failed to register logs. Caused by: disk full"
    );
}

#[test]
fn logging_failure_chains_stage_and_cause() {
    let args = Args::new(
        "0.0.0.0".to_string(),
        7654,
        "data/app.sqlite3".to_string(),
        "".to_string(),
        "migrations".to_string(),
        LogLevel::Info,
    );
    let cause = LogManager::register(&args).unwrap_err().message();
    let e = BuildError::logging(cause);
    assert_eq!(
        e.describe(),
        "Failed to register logs. Caused by: Logs path `` has no parent."
    );
}

#[test]
fn trace_layer_keeps_every_route() {
    let router = Router::new()
        .route("/", MethodBinding { method: HttpMethod::Get, handler: 0 })
        .route("/users", MethodBinding { method: HttpMethod::Post, handler: 1 });
    let router = router.with_trace_layer();
    assert!(router.instrumented);
    assert_eq!(router.dispatch("/", HttpMethod::Get), Some(0));
    assert_eq!(router.dispatch("/users", HttpMethod::Post), Some(1));
    assert_eq!(router.routes.len(), 2);
}

#[test]
fn abort_consumes_the_pipeline_and_keeps_the_error() {
    let args = sample_args();
    let logs = LogManager::register(&args).unwrap();
    let database = Database::register_and_migrate(&args, vec![1], 0).unwrap();
    let p = ServerBuilder::new()
        .begin_build()
        .config_resolved(args)
        .logging_ready(logs)
        .database_ready(database);
    let error = p.listener_error("address in use".to_string());
    let e = p.abort(error);
    assert_eq!(
        e.message,
        "Failed to open TcpListener at address `0.0.0.0:7654`."
    );
    assert_eq!(e.cause, "address in use");
}
