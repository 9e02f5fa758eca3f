//! Database failures, categorized by what the caller should do.

use vstd::prelude::*;
use vstd::string::StringExecFns;

verus! {

/// Database-specific error kinds.
#[derive(Debug, Clone, Copy, PartialEq, Eq, Hash, Structural)]
pub enum DatabaseErrorKind {
    /// Failed to establish a database connection.
    ConnectionFailed,
    /// Lost the database connection mid-operation.
    ConnectionLost,
    /// Query syntax error.
    QuerySyntax,
    /// Query execution error (e.g. invalid parameters).
    QueryExecution,
    /// Constraint violation (e.g. unique constraint, foreign key).
    ConstraintViolation,
    /// Deadlock detected.
    Deadlock,
    /// Transaction serialization failure.
    SerializationFailure,
    /// Transaction timeout.
    TransactionTimeout,
    /// Transaction already in progress.
    NestedTransaction,
    /// No rows returned when rows were expected.
    NoRows,
    /// Too many rows returned.
    TooManyRows,
    /// Result set conversion error.
    TypeMismatch,
    /// Database schema mismatch.
    SchemaMismatch,
    /// Database locked.
    DatabaseLocked,
    /// Disk full or quota exceeded.
    DiskFull,
    /// Permission denied for the operation.
    PermissionDenied,
    /// Database is in read-only mode.
    ReadOnly,
}

impl DatabaseErrorKind {
    /// The kinds that are worth retrying.
    pub open spec fn retryable(self) -> bool {
        self is ConnectionFailed
            || self is ConnectionLost
            || self is Deadlock
            || self is SerializationFailure
            || self is TransactionTimeout
            || self is DatabaseLocked
    }

    /// The connection-related kinds.
    pub open spec fn connection_error(self) -> bool {
        self is ConnectionFailed
            || self is ConnectionLost
    }

    /// The query-related kinds.
    pub open spec fn query_error(self) -> bool {
        self is QuerySyntax
            || self is QueryExecution
            || self is TypeMismatch
    }

    /// The transaction-related kinds.
    pub open spec fn transaction_error(self) -> bool {
        self is Deadlock
            || self is SerializationFailure
            || self is TransactionTimeout
            || self is NestedTransaction
    }

    /// The data-related kinds.
    pub open spec fn data_error(self) -> bool {
        self is ConstraintViolation
            || self is NoRows
            || self is TooManyRows
    }

    /// The configuration-related kinds.
    pub open spec fn configuration_error(self) -> bool {
        self is SchemaMismatch
            || self is ReadOnly
            || self is PermissionDenied
    }

    /// The name of the category that the kind falls under.
    pub open spec fn category_name(self) -> Seq<char> {
        if self.connection_error() {
            "Connection"@
        } else if self.query_error() {
            "Query"@
        } else if self.transaction_error() {
            "Transaction"@
        } else if self.data_error() {
            "Data"@
        } else if self.configuration_error() {
            "Configuration"@
        } else {
            "System"@
        }
    }

    /// The machine-readable name, in snake case.
    pub open spec fn machine_name(self) -> Seq<char> {
        match self {
            DatabaseErrorKind::ConnectionFailed => "connection_failed"@,
            DatabaseErrorKind::ConnectionLost => "connection_lost"@,
            DatabaseErrorKind::QuerySyntax => "query_syntax"@,
            DatabaseErrorKind::QueryExecution => "query_execution"@,
            DatabaseErrorKind::ConstraintViolation => "constraint_violation"@,
            DatabaseErrorKind::Deadlock => "deadlock"@,
            DatabaseErrorKind::SerializationFailure => "serialization_failure"@,
            DatabaseErrorKind::TransactionTimeout => "transaction_timeout"@,
            DatabaseErrorKind::NestedTransaction => "nested_transaction"@,
            DatabaseErrorKind::NoRows => "no_rows"@,
            DatabaseErrorKind::TooManyRows => "too_many_rows"@,
            DatabaseErrorKind::TypeMismatch => "type_mismatch"@,
            DatabaseErrorKind::SchemaMismatch => "schema_mismatch"@,
            DatabaseErrorKind::DatabaseLocked => "database_locked"@,
            DatabaseErrorKind::DiskFull => "disk_full"@,
            DatabaseErrorKind::PermissionDenied => "permission_denied"@,
            DatabaseErrorKind::ReadOnly => "read_only"@,
        }
    }

    /// The human-readable name.
    pub open spec fn display_name(self) -> Seq<char> {
        match self {
            DatabaseErrorKind::ConnectionFailed => "connection failed"@,
            DatabaseErrorKind::ConnectionLost => "connection lost"@,
            DatabaseErrorKind::QuerySyntax => "query syntax error"@,
            DatabaseErrorKind::QueryExecution => "query execution error"@,
            DatabaseErrorKind::ConstraintViolation => "constraint violation"@,
            DatabaseErrorKind::Deadlock => "deadlock detected"@,
            DatabaseErrorKind::SerializationFailure => "serialization failure"@,
            DatabaseErrorKind::TransactionTimeout => "transaction timeout"@,
            DatabaseErrorKind::NestedTransaction => "nested transaction"@,
            DatabaseErrorKind::NoRows => "no rows returned"@,
            DatabaseErrorKind::TooManyRows => "too many rows returned"@,
            DatabaseErrorKind::TypeMismatch => "type mismatch"@,
            DatabaseErrorKind::SchemaMismatch => "schema mismatch"@,
            DatabaseErrorKind::DatabaseLocked => "database locked"@,
            DatabaseErrorKind::DiskFull => "disk full"@,
            DatabaseErrorKind::PermissionDenied => "permission denied"@,
            DatabaseErrorKind::ReadOnly => "database is read-only"@,
        }
    }

    /// Whether this kind represents a retryable condition.
    pub fn is_retryable(&self) -> (res: bool)
        ensures
            res == self.retryable(),
    {
        match self {
            DatabaseErrorKind::ConnectionFailed => true,
            DatabaseErrorKind::ConnectionLost => true,
            DatabaseErrorKind::QuerySyntax => false,
            DatabaseErrorKind::QueryExecution => false,
            DatabaseErrorKind::ConstraintViolation => false,
            DatabaseErrorKind::Deadlock => true,
            DatabaseErrorKind::SerializationFailure => true,
            DatabaseErrorKind::TransactionTimeout => true,
            DatabaseErrorKind::NestedTransaction => false,
            DatabaseErrorKind::NoRows => false,
            DatabaseErrorKind::TooManyRows => false,
            DatabaseErrorKind::TypeMismatch => false,
            DatabaseErrorKind::SchemaMismatch => false,
            DatabaseErrorKind::DatabaseLocked => true,
            DatabaseErrorKind::DiskFull => false,
            DatabaseErrorKind::PermissionDenied => false,
            DatabaseErrorKind::ReadOnly => false,
        }
    }

    /// Whether this is a connection-related error.
    pub fn is_connection_error(&self) -> (res: bool)
        ensures
            res == self.connection_error(),
    {
        matches!(
            self,
            DatabaseErrorKind::ConnectionFailed
                | DatabaseErrorKind::ConnectionLost
        )
    }

    /// Whether this is a query-related error.
    pub fn is_query_error(&self) -> (res: bool)
        ensures
            res == self.query_error(),
    {
        matches!(
            self,
            DatabaseErrorKind::QuerySyntax
                | DatabaseErrorKind::QueryExecution
                | DatabaseErrorKind::TypeMismatch
        )
    }

    /// Whether this is a transaction-related error.
    pub fn is_transaction_error(&self) -> (res: bool)
        ensures
            res == self.transaction_error(),
    {
        matches!(
            self,
            DatabaseErrorKind::Deadlock
                | DatabaseErrorKind::SerializationFailure
                | DatabaseErrorKind::TransactionTimeout
                | DatabaseErrorKind::NestedTransaction
        )
    }

    /// Whether this is a data-related error.
    pub fn is_data_error(&self) -> (res: bool)
        ensures
            res == self.data_error(),
    {
        matches!(
            self,
            DatabaseErrorKind::ConstraintViolation
                | DatabaseErrorKind::NoRows
                | DatabaseErrorKind::TooManyRows
        )
    }

    /// Whether this is a configuration-related error.
    pub fn is_configuration_error(&self) -> (res: bool)
        ensures
            res == self.configuration_error(),
    {
        matches!(
            self,
            DatabaseErrorKind::SchemaMismatch
                | DatabaseErrorKind::ReadOnly
                | DatabaseErrorKind::PermissionDenied
        )
    }

    /// The category of this kind.
    pub fn category(&self) -> (res: &'static str)
        ensures
            res@ == self.category_name(),
    {
        if self.is_connection_error() {
            "Connection"
        } else if self.is_query_error() {
            "Query"
        } else if self.is_transaction_error() {
            "Transaction"
        } else if self.is_data_error() {
            "Data"
        } else if self.is_configuration_error() {
            "Configuration"
        } else {
            "System"
        }
    }

    /// The machine-readable name of this kind.
    pub fn to_machine_string(&self) -> (res: String)
        ensures
            res@ == self.machine_name(),
    {
        match self {
            DatabaseErrorKind::ConnectionFailed => String::from_str("connection_failed"),
            DatabaseErrorKind::ConnectionLost => String::from_str("connection_lost"),
            DatabaseErrorKind::QuerySyntax => String::from_str("query_syntax"),
            DatabaseErrorKind::QueryExecution => String::from_str("query_execution"),
            DatabaseErrorKind::ConstraintViolation => String::from_str("constraint_violation"),
            DatabaseErrorKind::Deadlock => String::from_str("deadlock"),
            DatabaseErrorKind::SerializationFailure => String::from_str("serialization_failure"),
            DatabaseErrorKind::TransactionTimeout => String::from_str("transaction_timeout"),
            DatabaseErrorKind::NestedTransaction => String::from_str("nested_transaction"),
            DatabaseErrorKind::NoRows => String::from_str("no_rows"),
            DatabaseErrorKind::TooManyRows => String::from_str("too_many_rows"),
            DatabaseErrorKind::TypeMismatch => String::from_str("type_mismatch"),
            DatabaseErrorKind::SchemaMismatch => String::from_str("schema_mismatch"),
            DatabaseErrorKind::DatabaseLocked => String::from_str("database_locked"),
            DatabaseErrorKind::DiskFull => String::from_str("disk_full"),
            DatabaseErrorKind::PermissionDenied => String::from_str("permission_denied"),
            DatabaseErrorKind::ReadOnly => String::from_str("read_only"),
        }
    }

    /// The human-readable name of this kind.
    pub fn to_string(&self) -> (res: String)
        ensures
            res@ == self.display_name(),
    {
        match self {
            DatabaseErrorKind::ConnectionFailed => String::from_str("connection failed"),
            DatabaseErrorKind::ConnectionLost => String::from_str("connection lost"),
            DatabaseErrorKind::QuerySyntax => String::from_str("query syntax error"),
            DatabaseErrorKind::QueryExecution => String::from_str("query execution error"),
            DatabaseErrorKind::ConstraintViolation => String::from_str("constraint violation"),
            DatabaseErrorKind::Deadlock => String::from_str("deadlock detected"),
            DatabaseErrorKind::SerializationFailure => String::from_str("serialization failure"),
            DatabaseErrorKind::TransactionTimeout => String::from_str("transaction timeout"),
            DatabaseErrorKind::NestedTransaction => String::from_str("nested transaction"),
            DatabaseErrorKind::NoRows => String::from_str("no rows returned"),
            DatabaseErrorKind::TooManyRows => String::from_str("too many rows returned"),
            DatabaseErrorKind::TypeMismatch => String::from_str("type mismatch"),
            DatabaseErrorKind::SchemaMismatch => String::from_str("schema mismatch"),
            DatabaseErrorKind::DatabaseLocked => String::from_str("database locked"),
            DatabaseErrorKind::DiskFull => String::from_str("disk full"),
            DatabaseErrorKind::PermissionDenied => String::from_str("permission denied"),
            DatabaseErrorKind::ReadOnly => String::from_str("database is read-only"),
        }
    }
}

} // verus!
