//! The errors that end a statement and the notices that accompany one.

use crate::repr::{GlobalId, NotNullViolation};
use vstd::prelude::*;

verus! {

/// An error of the catalog.
#[derive(Debug, PartialEq, Eq)]
pub enum CatalogError {
    /// No object has this identifier.
    UnknownItem(GlobalId),
    /// The object is no relation and has no columns.
    InvalidDependency(GlobalId),
}

/// An error that is delivered to the client as the outcome of a statement.
#[derive(Debug, PartialEq, Eq)]
pub enum AdapterError {
    /// The session's role lacks a privilege that the plan needs.
    Unauthorized(String),
    /// The plan may not run on the session's cluster.
    RestrictedCluster(String),
    /// The catalog refused the operation.
    SqlCatalog(CatalogError),
    /// No cursor has this name.
    UnknownCursor(String),
    /// No prepared statement has this name.
    UnknownPreparedStatement(String),
    /// A prepared statement has this name already.
    PreparedStatementExists(String),
    /// The named operation may not run once a transaction has statements.
    OperationProhibitsTransaction(String),
    /// The named operation needs a transaction and there is none.
    OperationRequiresTransaction(String),
    /// A statement arrived in a transaction that has failed.
    TransactionAborted,
    /// A write arrived in a transaction that may only read.
    ReadOnlyTransaction,
    /// A read arrived in a transaction that has written.
    WriteOnlyTransaction,
    /// Another statement arrived in a transaction that subscribes.
    SubscribeOnlyTransaction,
    /// A row broke a column's constraint.
    ConstraintViolation(NotNullViolation),
    /// The rows to return take more bytes than the limit, which is given.
    ResultSize(u32),
    /// The constant rows of a statement could not be evaluated.
    Eval(String),
    /// A handler answered with a response that its plan does not allow.
    UnexpectedResponse,
    /// The sequencer was answered something that it had not asked for.
    UnexpectedReply,
    /// The coordinator broke one of its own rules.
    Internal(String),
}

/// How loud a notice is.
#[derive(Clone, Copy, Debug, PartialEq, Eq, Structural)]
pub enum NoticeSeverity {
    Debug,
    Info,
    Log,
    Notice,
    Warning,
}

/// Advice to the client that does not change the outcome of a statement.
#[derive(Clone, Copy, Debug, PartialEq, Eq, Structural)]
pub enum AdapterNotice {
    /// `START TRANSACTION` arrived inside a transaction.
    ExistingTransactionInProgress,
    /// `COMMIT` or `ROLLBACK` arrived in a transaction that no statement
    /// of the client opened.
    ExplicitTransactionControlInImplicitTransaction,
    /// The client asked for a notice of this severity.
    UserRequested { severity: NoticeSeverity },
    /// Access control is switched off for the whole system.
    RbacSystemDisabled,
    /// Access control is switched off for this session.
    RbacUserDisabled,
}

} // verus!
