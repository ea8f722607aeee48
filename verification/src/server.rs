//! The staged server-assembly pipeline and the assembled server. Assembly
//! walks a single forward path — configuration, then logging, then a
//! migrated database, then a bound listener, then the decorated router —
//! and every transition requires the stage before it, so no step can be
//! skipped, reordered or repeated. A failure at any stage yields a
//! `BuildError` naming the stage and carrying the underlying cause, and no
//! partial `Server` value can exist: only a pipeline that has passed every
//! stage can be assembled.

use vstd::prelude::*;
use vstd::string::StringExecFns;

use crate::args::Args;
use crate::database::Database;
use crate::logs::LogManager;
use crate::router::{MethodBinding, Router, RouteView};
use crate::router::binding_of;
use crate::text::{dec_digits, fmt_u64};

verus! {

/// The assembly stages, in the only order they may be passed. `Assembled`
/// is witnessed by a `Server` value rather than by a pipeline.
#[derive(Clone, Copy, Debug, PartialEq, Eq, Structural)]
pub enum BuildStage {
    Idle,
    ConfigResolved,
    LoggingReady,
    DatabaseReady,
    ListenerBound,
    Assembled,
}

/// The stage-failure message for the listener stage, naming the address
/// and port that could not be bound.
pub open spec fn listener_message(address: Seq<char>, port: nat) -> Seq<char> {
    "Failed to open TcpListener at address `"@ + address + ":"@ + dec_digits(port) + "`."@
}

/// A fatal assembly-time failure: a stage-identifying message and the
/// underlying cause, surfaced to the operator as a chain rather than a
/// bare code.
#[derive(Debug)]
pub struct BuildError {
    pub message: String,
    pub cause: String,
}

impl BuildError {
    /// The logging stage failed.
    pub fn logging(cause: String) -> (e: BuildError)
        ensures
            e.message@ == "Failed to register logs."@,
            e.cause@ == cause@,
    {
        BuildError { message: String::from_str("Failed to register logs."), cause }
    }

    /// The database stage failed.
    pub fn database(cause: String) -> (e: BuildError)
        ensures
            e.message@ == "Failed to register and migrate database."@,
            e.cause@ == cause@,
    {
        BuildError {
            message: String::from_str("Failed to register and migrate database."),
            cause,
        }
    }

    /// The listener stage failed: the message names the address and port
    /// that could not be bound.
    pub fn listener(address: &str, port: u32, cause: String) -> (e: BuildError)
        ensures
            e.message@ == listener_message(address@, port as nat),
            e.cause@ == cause@,
    {
        let mut m = String::from_str("Failed to open TcpListener at address `");
        m.append(address);
        m.append(":");
        let d = fmt_u64(port as u64);
        m.append(d.as_str());
        m.append("`.");
        proof {
            assert(m@ =~= listener_message(address@, port as nat));
        }
        BuildError { message: m, cause }
    }

    /// The label `build_and_serve` adds when `build` fails.
    pub fn building(cause: String) -> (e: BuildError)
        ensures
            e.message@ == "Failed to build server."@,
            e.cause@ == cause@,
    {
        BuildError { message: String::from_str("Failed to build server."), cause }
    }

    /// The label `build_and_serve` adds when `serve` fails.
    pub fn serving(cause: String) -> (e: BuildError)
        ensures
            e.message@ == "Failed to serve server."@,
            e.cause@ == cause@,
    {
        BuildError { message: String::from_str("Failed to serve server."), cause }
    }

    pub open spec fn spec_describe(&self) -> Seq<char> {
        self.message@ + " Caused by: "@ + self.cause@
    }

    /// The whole chain in one operator-facing line.
    pub fn describe(&self) -> (s: String)
        ensures
            s@ == self.spec_describe(),
    {
        let mut s = self.message.clone();
        s.append(" Caused by: ");
        s.append(self.cause.as_str());
        proof {
            assert(s@ =~= self.spec_describe());
        }
        s
    }
}

/// The address a listener stage binds: resolved from configuration before
/// binding, kept by the server afterwards.
#[derive(Debug)]
pub struct BoundAddress {
    pub address: String,
    pub port: u32,
}

/// Accumulates route registrations until a single build consumes the
/// builder. Consuming it by value makes re-building from a spent builder
/// impossible rather than merely an error.
pub struct ServerBuilder {
    pub router: Router,
}

impl ServerBuilder {
    pub open spec fn wf(&self) -> bool {
        self.router.wf()
    }

    pub fn new() -> (b: ServerBuilder)
        ensures
            b.wf(),
            b.router@.routes == Seq::<RouteView>::empty(),
            !b.router@.instrumented,
            !b.router@.pool_attached,
    {
        ServerBuilder { router: Router::new() }
    }

    /// Registers `binding` under `path`; a binding already present for the
    /// same path and method is overwritten, every other binding kept.
    pub fn route(self, path: &str, binding: MethodBinding) -> (b: ServerBuilder)
        requires
            self.wf(),
        ensures
            b.wf(),
            b.router@.instrumented == self.router@.instrumented,
            b.router@.pool_attached == self.router@.pool_attached,
            binding_of(b.router@.routes, path@, binding.method) == Some(binding.handler),
            forall|p: Seq<char>, m: crate::router::HttpMethod|
                !(p == path@ && m == binding.method) ==> #[trigger] binding_of(
                    b.router@.routes,
                    p,
                    m,
                ) == binding_of(self.router@.routes, p, m),
    {
        ServerBuilder { router: self.router.route(path, binding) }
    }

    /// Consumes the builder and opens the assembly pipeline at `Idle`.
    pub fn begin_build(self) -> (p: BuildPipeline)
        requires
            self.wf(),
        ensures
            p.wf(),
            p.stage == BuildStage::Idle,
            p.router@ == self.router@,
    {
        BuildPipeline {
            stage: BuildStage::Idle,
            router: self.router,
            config: None,
            logs: None,
            database: None,
            bound: None,
        }
    }
}

/// The assembly state machine. Each resource field is filled exactly when
/// its stage has been passed; a database is stored only once migrated, so
/// no handler can ever see a pool that is not schema-current.
pub struct BuildPipeline {
    pub stage: BuildStage,
    pub router: Router,
    pub config: Option<Args>,
    pub logs: Option<LogManager>,
    pub database: Option<Database>,
    pub bound: Option<BoundAddress>,
}

impl BuildPipeline {
    pub open spec fn wf(&self) -> bool {
        &&& self.router.wf()
        &&& match self.stage {
            BuildStage::Idle => self.config is None && self.logs is None && self.database is None
                && self.bound is None,
            BuildStage::ConfigResolved => self.config is Some && self.logs is None
                && self.database is None && self.bound is None,
            BuildStage::LoggingReady => self.config is Some && self.logs is Some
                && self.database is None && self.bound is None,
            BuildStage::DatabaseReady => self.config is Some && self.logs is Some
                && self.database is Some && self.bound is None,
            BuildStage::ListenerBound => self.config is Some && self.logs is Some
                && self.database is Some && self.bound is Some,
            BuildStage::Assembled => false,
        }
        &&& match self.database {
            Some(d) => d.wf() && d@.applied == d@.migrations.len(),
            None => true,
        }
    }

    /// Stores the resolved configuration. A configuration failure is a
    /// usage error handled before the pipeline: the process reports the
    /// parse error and exits, and no pipeline advances.
    pub fn config_resolved(self, config: Args) -> (p: Self)
        requires
            self.wf(),
            self.stage == BuildStage::Idle,
        ensures
            p.wf(),
            p.stage == BuildStage::ConfigResolved,
            p.router@ == self.router@,
            p.config == Some(config),
    {
        BuildPipeline { stage: BuildStage::ConfigResolved, config: Some(config), ..self }
    }

    /// Stores the logging stage's product. The caller obtains it from
    /// `LogManager::register`, which succeeds exactly when the configured
    /// log path names a base file.
    pub fn logging_ready(self, logs: LogManager) -> (p: Self)
        requires
            self.wf(),
            self.stage == BuildStage::ConfigResolved,
        ensures
            p.wf(),
            p.stage == BuildStage::LoggingReady,
            p.router@ == self.router@,
            p.config == self.config,
            p.logs == Some(logs),
    {
        BuildPipeline { stage: BuildStage::LoggingReady, logs: Some(logs), ..self }
    }

    /// Stores the database stage's product, which must already be
    /// migrated: the pool is never shared before the schema is current.
    pub fn database_ready(self, database: Database) -> (p: Self)
        requires
            self.wf(),
            self.stage == BuildStage::LoggingReady,
            database.wf(),
            database@.applied == database@.migrations.len(),
        ensures
            p.wf(),
            p.stage == BuildStage::DatabaseReady,
            p.router@ == self.router@,
            p.config == self.config,
            p.logs == self.logs,
            p.database == Some(database),
    {
        BuildPipeline { stage: BuildStage::DatabaseReady, database: Some(database), ..self }
    }

    /// The address the listener stage must bind, as `address:port`.
    pub fn listener_address(&self) -> (s: String)
        requires
            self.wf(),
            self.stage == BuildStage::DatabaseReady,
        ensures
            match self.config {
                Some(a) => s@ == a.address@ + ":"@ + dec_digits(a.port as nat),
                None => false,
            },
    {
        let a = self.config.as_ref().unwrap();
        let mut s = a.address.clone();
        s.append(":");
        let d = fmt_u64(a.port as u64);
        s.append(d.as_str());
        s
    }

    /// The stage failure for a listener that could not be bound, naming
    /// the configured address and port.
    pub fn listener_error(&self, cause: String) -> (e: BuildError)
        requires
            self.wf(),
            self.stage == BuildStage::DatabaseReady,
        ensures
            match self.config {
                Some(a) => e.message@ == listener_message(a.address@, a.port as nat),
                None => false,
            },
            e.cause@ == cause@,
    {
        let a = self.config.as_ref().unwrap();
        BuildError::listener(a.address.as_str(), a.port, cause)
    }

    /// Records that the listener at the configured address is bound.
    pub fn listener_bound(self) -> (p: Self)
        requires
            self.wf(),
            self.stage == BuildStage::DatabaseReady,
        ensures
            p.wf(),
            p.stage == BuildStage::ListenerBound,
            p.router@ == self.router@,
            p.config == self.config,
            p.logs == self.logs,
            p.database == self.database,
            match (p.bound, self.config) {
                (Some(b), Some(a)) => b.address@ == a.address@ && b.port == a.port,
                _ => false,
            },
    {
        let a = self.config.as_ref().unwrap();
        let bound = BoundAddress { address: a.address.clone(), port: a.port };
        BuildPipeline { stage: BuildStage::ListenerBound, bound: Some(bound), ..self }
    }

    /// Aborts the build at any stage: the pipeline — and with it every
    /// resource model an earlier stage stored — is consumed and dropped,
    /// and only the stage's error survives, unchanged. No partial server
    /// can outlive a failed stage: the sole way to obtain a `Server` is
    /// `assemble`, which demands a pipeline that has passed every stage.
    pub fn abort(self, error: BuildError) -> (e: BuildError)
        ensures
            e == error,
    {
        error
    }

    /// The final transition: decorates the accumulated route table with the
    /// shared pool and the request-lifecycle middleware, and moves every
    /// acquired resource into an immutable `Server`. Only a pipeline that
    /// has passed every stage can take it.
    pub fn assemble(self) -> (s: Server)
        requires
            self.wf(),
            self.stage == BuildStage::ListenerBound,
        ensures
            s.wf(),
            s.router@.routes == self.router@.routes,
            s.router@.instrumented,
            s.router@.pool_attached,
            Some(s.args) == self.config,
            Some(s.logs) == self.logs,
            Some(s.database) == self.database,
            Some(s.bound) == self.bound,
    {
        let BuildPipeline { stage: _, router, config, logs, database, bound } = self;
        let args = config.unwrap();
        let logs = logs.unwrap();
        let database = database.unwrap();
        let bound = bound.unwrap();
        let router = router.attach_pool().attach_middleware();
        Server::new(router, bound, args, logs, database)
    }
}

/// The assembled, immutable server: it owns the route table, the log-sink
/// handle and the bound address, and shares its migrated database with
/// every request handler. Serving runs until the listener itself fails;
/// there is deliberately no cooperative shutdown signal — the process ends
/// the loop.
pub struct Server {
    pub args: Args,
    pub database: Database,
    pub logs: LogManager,
    pub router: Router,
    pub bound: BoundAddress,
}

impl Server {
    /// The database a server owns is always schema-current: assembly
    /// cannot complete before migration has.
    pub open spec fn wf(&self) -> bool {
        self.database.wf() && self.database@.applied == self.database@.migrations.len()
    }

    pub(crate) fn new(
        router: Router,
        bound: BoundAddress,
        args: Args,
        logs: LogManager,
        database: Database,
    ) -> (s: Server)
        requires
            database.wf(),
            database@.applied == database@.migrations.len(),
        ensures
            s.wf(),
            s.router == router,
            s.bound == bound,
            s.args == args,
            s.logs == logs,
            s.database == database,
    {
        Server { args, database, logs, router, bound }
    }
}

} // verus!
