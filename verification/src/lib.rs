//! A verified core for a small HTTP service scaffold.
//!
//! The library models the two load-bearing pieces of such a service: the
//! request-lifecycle instrumentation middleware (correlation ids, structured
//! start/finish log records, status and timing capture) and the staged
//! server-assembly pipeline (logging, then a migrated database, then a bound
//! listener, then the decorated router). Every decision these pieces make is
//! an ordinary function with a contract; the surrounding process — argument
//! parsing, the tracing backend, the SQL engine, the socket accept loop —
//! stays outside the library and hands it plain values.

pub mod args;
pub mod clock;
pub mod context;
pub mod correlation;
pub mod database;
pub mod logs;
pub mod paths;
pub mod router;
pub mod server;
pub mod text;
