//! Error values of the local backend and their mapping onto service errors.

use vstd::prelude::*;
use vstd::string::*;
use crate::text::{decimal, decimal_string};

verus! {

/// Local-backend-specific errors. Each carries a human-readable message.
#[derive(Debug, Clone, PartialEq, Eq)]
pub enum LocalError {
    Database(String),
    Query(String),
    Migration(String),
    Route(String),
    Orchestrator(String),
}

/// Result type of the local backend.
pub type LocalResult<T> = Result<T, LocalError>;

/// Which variant a `LocalError` is.
#[derive(Debug, Clone, Copy, PartialEq, Eq, Structural)]
pub enum ErrorKind {
    Database,
    Query,
    Migration,
    Route,
    Orchestrator,
}

impl View for LocalError {
    type V = (ErrorKind, Seq<char>);

    open spec fn view(&self) -> (ErrorKind, Seq<char>) {
        match self {
            LocalError::Database(m) => (ErrorKind::Database, m@),
            LocalError::Query(m) => (ErrorKind::Query, m@),
            LocalError::Migration(m) => (ErrorKind::Migration, m@),
            LocalError::Route(m) => (ErrorKind::Route, m@),
            LocalError::Orchestrator(m) => (ErrorKind::Orchestrator, m@),
        }
    }
}

/// The text that a `LocalError` displays as.
pub open spec fn display_text(e: (ErrorKind, Seq<char>)) -> Seq<char> {
    match e.0 {
        ErrorKind::Database => "Database error: "@ + e.1,
        ErrorKind::Query => "Query error: "@ + e.1,
        ErrorKind::Migration => "Migration error: "@ + e.1,
        ErrorKind::Route => "Route evaluation error: "@ + e.1,
        ErrorKind::Orchestrator => "Orchestrator error: "@ + e.1,
    }
}

impl LocalError {
    /// Builds an error of the given kind with the given message.
    pub fn new(kind: ErrorKind, message: String) -> (e: LocalError)
        ensures
            e@ == (kind, message@),
    {
        match kind {
            ErrorKind::Database => LocalError::Database(message),
            ErrorKind::Query => LocalError::Query(message),
            ErrorKind::Migration => LocalError::Migration(message),
            ErrorKind::Route => LocalError::Route(message),
            ErrorKind::Orchestrator => LocalError::Orchestrator(message),
        }
    }

    /// The message carried by the error.
    pub fn message(&self) -> (m: &String)
        ensures
            m@ == self@.1,
    {
        match self {
            LocalError::Database(m) => m,
            LocalError::Query(m) => m,
            LocalError::Migration(m) => m,
            LocalError::Route(m) => m,
            LocalError::Orchestrator(m) => m,
        }
    }

    /// The human-readable text of the error, e.g. `Database error: <message>`.
    pub fn to_display_string(&self) -> (s: String)
        ensures
            s@ == display_text(self@),
    {
        let mut s = match self {
            LocalError::Database(_) => String::from_str("Database error: "),
            LocalError::Query(_) => String::from_str("Query error: "),
            LocalError::Migration(_) => String::from_str("Migration error: "),
            LocalError::Route(_) => String::from_str("Route evaluation error: "),
            LocalError::Orchestrator(_) => String::from_str("Orchestrator error: "),
        };
        s.append(self.message().as_str());
        s
    }
}


/// The service-level errors that the local backend reports to its callers:
/// the variants of the shared service error that this backend produces.
#[derive(Debug, Clone, PartialEq, Eq)]
pub enum ServiceError {
    ConfigError(String),
    ValidationFailed { message: String },
    WorkflowNotFound { workflow_id: String },
}

/// The mathematical value of a `ServiceError`: its variant and its text.
pub enum ServiceErrorView {
    ConfigError(Seq<char>),
    ValidationFailed(Seq<char>),
    WorkflowNotFound(Seq<char>),
}

impl View for ServiceError {
    type V = ServiceErrorView;

    open spec fn view(&self) -> ServiceErrorView {
        match self {
            ServiceError::ConfigError(m) => ServiceErrorView::ConfigError(m@),
            ServiceError::ValidationFailed { message } => ServiceErrorView::ValidationFailed(message@),
            ServiceError::WorkflowNotFound { workflow_id } => ServiceErrorView::WorkflowNotFound(
                workflow_id@,
            ),
        }
    }
}

/// How a local error is reported as a service error: database errors as
/// configuration errors with the same text, query, migration and orchestrator
/// errors as configuration errors under a prefix that names them, and route
/// evaluation errors as validation failures with the same text.
pub open spec fn service_view_of(e: (ErrorKind, Seq<char>)) -> ServiceErrorView {
    match e.0 {
        ErrorKind::Database => ServiceErrorView::ConfigError(e.1),
        ErrorKind::Query => ServiceErrorView::ConfigError("query error: "@ + e.1),
        ErrorKind::Migration => ServiceErrorView::ConfigError("migration error: "@ + e.1),
        ErrorKind::Route => ServiceErrorView::ValidationFailed(e.1),
        ErrorKind::Orchestrator => ServiceErrorView::ConfigError("orchestrator error: "@ + e.1),
    }
}

/// The text that a service error carries.
pub open spec fn service_text(v: ServiceErrorView) -> Seq<char> {
    match v {
        ServiceErrorView::ConfigError(m) => m,
        ServiceErrorView::ValidationFailed(m) => m,
        ServiceErrorView::WorkflowNotFound(m) => m,
    }
}

fn prefixed(prefix: &str, message: String) -> (s: String)
    ensures
        s@ == prefix@ + message@,
{
    let s = String::from_str(prefix);
    s.concat(message.as_str())
}

impl From<LocalError> for ServiceError {
    /// Converts a local error into the service error that callers see.
    fn from(e: LocalError) -> (r: ServiceError)
        ensures
            r@ == service_view_of(e@),
    {
        match e {
            LocalError::Database(msg) => ServiceError::ConfigError(msg),
            LocalError::Query(msg) => ServiceError::ConfigError(prefixed("query error: ", msg)),
            LocalError::Migration(msg) => ServiceError::ConfigError(
                prefixed("migration error: ", msg),
            ),
            LocalError::Route(msg) => ServiceError::ValidationFailed { message: msg },
            LocalError::Orchestrator(msg) => ServiceError::ConfigError(
                prefixed("orchestrator error: ", msg),
            ),
        }
    }
}

/// The conversion is stated over views by the `ensures` of `from` above. A
/// spec function cannot build the prefixed message as a `String`, so the
/// trait-level equation `from(e) == from_spec(e)` is not claimed:
/// `obeys_from_spec` is false, and `from_spec` is only the value whose view
/// the conversion gives.
impl vstd::std_specs::convert::FromSpecImpl<LocalError> for ServiceError {
    open spec fn obeys_from_spec() -> bool {
        false
    }

    open spec fn from_spec(v: LocalError) -> ServiceError {
        choose|r: ServiceError| r@ == service_view_of(v@)
    }
}

/// Every local error reaches callers with its message intact, at the end of
/// the service error's text; only route evaluation errors become validation
/// failures, every other kind becomes a configuration error.
pub proof fn lemma_service_error_keeps_message(e: LocalError)
    ensures
        service_text(service_view_of(e@)).len() >= e@.1.len(),
        service_text(service_view_of(e@)).subrange(
            service_text(service_view_of(e@)).len() - e@.1.len(),
            service_text(service_view_of(e@)).len() as int,
        ) == e@.1,
        (service_view_of(e@) is ValidationFailed) <==> (e@.0 == ErrorKind::Route),
        (service_view_of(e@) is ConfigError) <==> (e@.0 != ErrorKind::Route),
{
    let t = service_text(service_view_of(e@));
    let m = e@.1;
    assert(t.subrange(t.len() - m.len(), t.len() as int) =~= m);
}

/// The step of database work that failed.
#[derive(Debug, Clone, PartialEq, Eq)]
pub enum DbStep {
    /// Creating the directory that holds the database file.
    CreateDataDir { parent: String },
    /// Opening the database file.
    Open,
    /// Opening a connection.
    Connect,
    /// Beginning a transaction.
    BeginTransaction,
    /// Executing a statement.
    Execute,
    /// Running a query.
    Query,
    /// Fetching the next row of a query.
    FetchRow,
    /// Reading a column of a row as the given kind of value.
    ReadColumn { kind: ColumnKind, idx: i32 },
    /// Reading an applied schema version.
    ReadVersion,
    /// Applying the migration of the given version.
    ApplyMigration { version: i64 },
    /// Recording the given schema version as applied.
    RecordVersion { version: i64 },
    /// Committing the migration transaction.
    Commit,
    /// Resolving the per-user data directory.
    ResolveDataDir,
}

/// The kind of value that a column is read as.
#[derive(Debug, Clone, Copy, PartialEq, Eq, Structural)]
pub enum ColumnKind {
    Text,
    OptText,
    I64,
    OptI64,
    F64,
    OptF64,
    Bool,
    OptBool,
}

/// The name of a column kind in diagnostics.
pub open spec fn column_kind_name(kind: ColumnKind) -> Seq<char> {
    match kind {
        ColumnKind::Text => "text"@,
        ColumnKind::OptText => "opt text"@,
        ColumnKind::I64 => "i64"@,
        ColumnKind::OptI64 => "opt i64"@,
        ColumnKind::F64 => "f64"@,
        ColumnKind::OptF64 => "opt f64"@,
        ColumnKind::Bool => "bool"@,
        ColumnKind::OptBool => "opt bool"@,
    }
}

fn column_kind_str(kind: ColumnKind) -> (s: &'static str)
    ensures
        s@ == column_kind_name(kind),
{
    match kind {
        ColumnKind::Text => "text",
        ColumnKind::OptText => "opt text",
        ColumnKind::I64 => "i64",
        ColumnKind::OptI64 => "opt i64",
        ColumnKind::F64 => "f64",
        ColumnKind::OptF64 => "opt f64",
        ColumnKind::Bool => "bool",
        ColumnKind::OptBool => "opt bool",
    }
}

/// The error reported when `step` fails with the outside error text `detail`.
pub open spec fn failure_view(step: DbStep, detail: Seq<char>) -> (ErrorKind, Seq<char>) {
    match step {
        DbStep::CreateDataDir { parent } => (
            ErrorKind::Database,
            "cannot create data directory "@ + parent@ + ": "@ + detail,
        ),
        DbStep::Open => (ErrorKind::Database, "libsql open failed: "@ + detail),
        DbStep::Connect => (ErrorKind::Database, "libsql connect failed: "@ + detail),
        DbStep::BeginTransaction => (ErrorKind::Database, "tx begin failed: "@ + detail),
        DbStep::Execute => (ErrorKind::Query, "execute failed: "@ + detail),
        DbStep::Query => (ErrorKind::Query, "query failed: "@ + detail),
        DbStep::FetchRow => (ErrorKind::Query, "row fetch failed: "@ + detail),
        DbStep::ReadColumn { kind, idx } => (
            ErrorKind::Query,
            "row "@ + column_kind_name(kind) + " col "@ + decimal(idx as int) + " failed: "@
                + detail,
        ),
        DbStep::ReadVersion => (ErrorKind::Query, "version read failed: "@ + detail),
        DbStep::ApplyMigration { version } => (
            ErrorKind::Migration,
            "migration "@ + decimal(version as int) + " failed: "@ + detail,
        ),
        DbStep::RecordVersion { version } => (
            ErrorKind::Migration,
            "record version "@ + decimal(version as int) + " failed: "@ + detail,
        ),
        DbStep::Commit => (ErrorKind::Migration, "commit failed: "@ + detail),
        DbStep::ResolveDataDir => (
            ErrorKind::Database,
            "cannot resolve data directory: "@ + detail,
        ),
    }
}

/// The error reported when `step` fails with the outside error text `detail`.
pub fn failure(step: &DbStep, detail: &str) -> (e: LocalError)
    ensures
        e@ == failure_view(*step, detail@),
{
    match step {
        DbStep::CreateDataDir { parent } => {
            let mut m = String::from_str("cannot create data directory ");
            m.append(parent.as_str());
            m.append(": ");
            m.append(detail);
            LocalError::Database(m)
        },
        DbStep::Open => LocalError::Database(String::from_str("libsql open failed: ").concat(detail)),
        DbStep::Connect => LocalError::Database(
            String::from_str("libsql connect failed: ").concat(detail),
        ),
        DbStep::BeginTransaction => LocalError::Database(
            String::from_str("tx begin failed: ").concat(detail),
        ),
        DbStep::Execute => LocalError::Query(String::from_str("execute failed: ").concat(detail)),
        DbStep::Query => LocalError::Query(String::from_str("query failed: ").concat(detail)),
        DbStep::FetchRow => LocalError::Query(String::from_str("row fetch failed: ").concat(detail)),
        DbStep::ReadColumn { kind, idx } => {
            let mut m = String::from_str("row ");
            m.append(column_kind_str(*kind));
            m.append(" col ");
            let n = decimal_string(*idx as i64);
            m.append(n.as_str());
            m.append(" failed: ");
            m.append(detail);
            LocalError::Query(m)
        },
        DbStep::ReadVersion => LocalError::Query(
            String::from_str("version read failed: ").concat(detail),
        ),
        DbStep::ApplyMigration { version } => {
            let mut m = String::from_str("migration ");
            let n = decimal_string(*version);
            m.append(n.as_str());
            m.append(" failed: ");
            m.append(detail);
            LocalError::Migration(m)
        },
        DbStep::RecordVersion { version } => {
            let mut m = String::from_str("record version ");
            let n = decimal_string(*version);
            m.append(n.as_str());
            m.append(" failed: ");
            m.append(detail);
            LocalError::Migration(m)
        },
        DbStep::Commit => LocalError::Migration(String::from_str("commit failed: ").concat(detail)),
        DbStep::ResolveDataDir => LocalError::Database(
            String::from_str("cannot resolve data directory: ").concat(detail),
        ),
    }
}

} // verus!
