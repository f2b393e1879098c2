//! What a statement answers, and which answers each kind of plan may give.

use crate::plan::{ExecuteTimeout, FetchDirection, ObjectType, PlanKind};
use crate::repr::{GlobalId, Row};
use vstd::prelude::*;

verus! {

/// What accompanies a statement for tracing and auditing.
#[derive(Debug, PartialEq, Eq)]
pub struct ExecuteContextExtra {
    /// The statement's entry in the statement log, if it has one.
    pub statement_id: Option<u64>,
}

impl ExecuteContextExtra {
    /// No accompaniment.
    pub fn empty() -> (extra: ExecuteContextExtra)
        ensures
            extra.statement_id is None,
    {
        ExecuteContextExtra { statement_id: None }
    }
}

/// The successful outcome of a statement.
#[derive(Debug, PartialEq, Eq)]
#[allow(inconsistent_fields)]
pub enum ExecuteResponse {
    AlteredDefaultPrivileges,
    AlteredObject(ObjectType),
    AlteredIndexLogicalCompaction,
    AlteredRole,
    AlteredSystemConfiguration,
    /// The statement was canceled.
    Canceled,
    ClosedCursor,
    CopyTo,
    /// Rows are expected from the client for these columns of a relation.
    CopyFrom { id: GlobalId, columns: Vec<usize>, extra: ExecuteContextExtra },
    CreatedConnection,
    CreatedDatabase,
    CreatedSchema,
    CreatedRole,
    CreatedCluster,
    CreatedClusterReplica,
    CreatedIndex,
    CreatedSecret,
    CreatedSink,
    CreatedSource,
    CreatedSources,
    CreatedTable,
    CreatedView,
    CreatedViews,
    CreatedMaterializedView,
    CreatedType,
    /// One prepared statement was removed, or all of them.
    Deallocate { all: bool },
    DeclaredCursor,
    /// This many rows were deleted.
    Deleted(usize),
    DiscardedTemp,
    DiscardedAll,
    DroppedObject(ObjectType),
    DroppedOwned,
    EmptyQuery,
    /// Rows are to be fetched from a cursor.
    Fetch { name: String, count: Option<FetchDirection>, timeout: ExecuteTimeout, extra: ExecuteContextExtra },
    GrantedPrivilege,
    GrantedRole,
    /// This many rows were inserted.
    Inserted(usize),
    Prepare,
    Raised,
    ReassignOwned,
    RevokedPrivilege,
    RevokedRole,
    /// These rows are the result.
    SendingRows(Vec<Row>),
    SetVariable { name: String, reset: bool },
    StartedTransaction,
    Subscribing,
    TransactionCommitted,
    TransactionRolledBack,
    /// This many rows were updated.
    Updated(usize),
    ValidatedConnection,
}

/// The kind of a response.
#[derive(Clone, Copy, Debug, PartialEq, Eq, Structural)]
pub enum ExecuteResponseKind {
    AlteredDefaultPrivileges,
    AlteredObject,
    AlteredIndexLogicalCompaction,
    AlteredRole,
    AlteredSystemConfiguration,
    Canceled,
    ClosedCursor,
    CopyTo,
    CopyFrom,
    CreatedConnection,
    CreatedDatabase,
    CreatedSchema,
    CreatedRole,
    CreatedCluster,
    CreatedClusterReplica,
    CreatedIndex,
    CreatedSecret,
    CreatedSink,
    CreatedSource,
    CreatedSources,
    CreatedTable,
    CreatedView,
    CreatedViews,
    CreatedMaterializedView,
    CreatedType,
    Deallocate,
    DeclaredCursor,
    Deleted,
    DiscardedTemp,
    DiscardedAll,
    DroppedObject,
    DroppedOwned,
    EmptyQuery,
    Fetch,
    GrantedPrivilege,
    GrantedRole,
    Inserted,
    Prepare,
    Raised,
    ReassignOwned,
    RevokedPrivilege,
    RevokedRole,
    SendingRows,
    SetVariable,
    StartedTransaction,
    Subscribing,
    TransactionCommitted,
    TransactionRolledBack,
    Updated,
    ValidatedConnection,
}

impl ExecuteResponse {
    /// The kind of the response.
    pub open spec fn kind_spec(&self) -> ExecuteResponseKind {
        match self {
            ExecuteResponse::AlteredDefaultPrivileges => ExecuteResponseKind::AlteredDefaultPrivileges,
            ExecuteResponse::AlteredObject(_) => ExecuteResponseKind::AlteredObject,
            ExecuteResponse::AlteredIndexLogicalCompaction => ExecuteResponseKind::AlteredIndexLogicalCompaction,
            ExecuteResponse::AlteredRole => ExecuteResponseKind::AlteredRole,
            ExecuteResponse::AlteredSystemConfiguration => ExecuteResponseKind::AlteredSystemConfiguration,
            ExecuteResponse::Canceled => ExecuteResponseKind::Canceled,
            ExecuteResponse::ClosedCursor => ExecuteResponseKind::ClosedCursor,
            ExecuteResponse::CopyTo => ExecuteResponseKind::CopyTo,
            ExecuteResponse::CopyFrom { .. } => ExecuteResponseKind::CopyFrom,
            ExecuteResponse::CreatedConnection => ExecuteResponseKind::CreatedConnection,
            ExecuteResponse::CreatedDatabase => ExecuteResponseKind::CreatedDatabase,
            ExecuteResponse::CreatedSchema => ExecuteResponseKind::CreatedSchema,
            ExecuteResponse::CreatedRole => ExecuteResponseKind::CreatedRole,
            ExecuteResponse::CreatedCluster => ExecuteResponseKind::CreatedCluster,
            ExecuteResponse::CreatedClusterReplica => ExecuteResponseKind::CreatedClusterReplica,
            ExecuteResponse::CreatedIndex => ExecuteResponseKind::CreatedIndex,
            ExecuteResponse::CreatedSecret => ExecuteResponseKind::CreatedSecret,
            ExecuteResponse::CreatedSink => ExecuteResponseKind::CreatedSink,
            ExecuteResponse::CreatedSource => ExecuteResponseKind::CreatedSource,
            ExecuteResponse::CreatedSources => ExecuteResponseKind::CreatedSources,
            ExecuteResponse::CreatedTable => ExecuteResponseKind::CreatedTable,
            ExecuteResponse::CreatedView => ExecuteResponseKind::CreatedView,
            ExecuteResponse::CreatedViews => ExecuteResponseKind::CreatedViews,
            ExecuteResponse::CreatedMaterializedView => ExecuteResponseKind::CreatedMaterializedView,
            ExecuteResponse::CreatedType => ExecuteResponseKind::CreatedType,
            ExecuteResponse::Deallocate { .. } => ExecuteResponseKind::Deallocate,
            ExecuteResponse::DeclaredCursor => ExecuteResponseKind::DeclaredCursor,
            ExecuteResponse::Deleted(_) => ExecuteResponseKind::Deleted,
            ExecuteResponse::DiscardedTemp => ExecuteResponseKind::DiscardedTemp,
            ExecuteResponse::DiscardedAll => ExecuteResponseKind::DiscardedAll,
            ExecuteResponse::DroppedObject(_) => ExecuteResponseKind::DroppedObject,
            ExecuteResponse::DroppedOwned => ExecuteResponseKind::DroppedOwned,
            ExecuteResponse::EmptyQuery => ExecuteResponseKind::EmptyQuery,
            ExecuteResponse::Fetch { .. } => ExecuteResponseKind::Fetch,
            ExecuteResponse::GrantedPrivilege => ExecuteResponseKind::GrantedPrivilege,
            ExecuteResponse::GrantedRole => ExecuteResponseKind::GrantedRole,
            ExecuteResponse::Inserted(_) => ExecuteResponseKind::Inserted,
            ExecuteResponse::Prepare => ExecuteResponseKind::Prepare,
            ExecuteResponse::Raised => ExecuteResponseKind::Raised,
            ExecuteResponse::ReassignOwned => ExecuteResponseKind::ReassignOwned,
            ExecuteResponse::RevokedPrivilege => ExecuteResponseKind::RevokedPrivilege,
            ExecuteResponse::RevokedRole => ExecuteResponseKind::RevokedRole,
            ExecuteResponse::SendingRows(_) => ExecuteResponseKind::SendingRows,
            ExecuteResponse::SetVariable { .. } => ExecuteResponseKind::SetVariable,
            ExecuteResponse::StartedTransaction => ExecuteResponseKind::StartedTransaction,
            ExecuteResponse::Subscribing => ExecuteResponseKind::Subscribing,
            ExecuteResponse::TransactionCommitted => ExecuteResponseKind::TransactionCommitted,
            ExecuteResponse::TransactionRolledBack => ExecuteResponseKind::TransactionRolledBack,
            ExecuteResponse::Updated(_) => ExecuteResponseKind::Updated,
            ExecuteResponse::ValidatedConnection => ExecuteResponseKind::ValidatedConnection,
        }
    }

    #[verifier::when_used_as_spec(kind_spec)]
    pub fn kind(&self) -> (k: ExecuteResponseKind)
        ensures
            k == self.kind_spec(),
    {
        match self {
            ExecuteResponse::AlteredDefaultPrivileges => ExecuteResponseKind::AlteredDefaultPrivileges,
            ExecuteResponse::AlteredObject(_) => ExecuteResponseKind::AlteredObject,
            ExecuteResponse::AlteredIndexLogicalCompaction => ExecuteResponseKind::AlteredIndexLogicalCompaction,
            ExecuteResponse::AlteredRole => ExecuteResponseKind::AlteredRole,
            ExecuteResponse::AlteredSystemConfiguration => ExecuteResponseKind::AlteredSystemConfiguration,
            ExecuteResponse::Canceled => ExecuteResponseKind::Canceled,
            ExecuteResponse::ClosedCursor => ExecuteResponseKind::ClosedCursor,
            ExecuteResponse::CopyTo => ExecuteResponseKind::CopyTo,
            ExecuteResponse::CopyFrom { .. } => ExecuteResponseKind::CopyFrom,
            ExecuteResponse::CreatedConnection => ExecuteResponseKind::CreatedConnection,
            ExecuteResponse::CreatedDatabase => ExecuteResponseKind::CreatedDatabase,
            ExecuteResponse::CreatedSchema => ExecuteResponseKind::CreatedSchema,
            ExecuteResponse::CreatedRole => ExecuteResponseKind::CreatedRole,
            ExecuteResponse::CreatedCluster => ExecuteResponseKind::CreatedCluster,
            ExecuteResponse::CreatedClusterReplica => ExecuteResponseKind::CreatedClusterReplica,
            ExecuteResponse::CreatedIndex => ExecuteResponseKind::CreatedIndex,
            ExecuteResponse::CreatedSecret => ExecuteResponseKind::CreatedSecret,
            ExecuteResponse::CreatedSink => ExecuteResponseKind::CreatedSink,
            ExecuteResponse::CreatedSource => ExecuteResponseKind::CreatedSource,
            ExecuteResponse::CreatedSources => ExecuteResponseKind::CreatedSources,
            ExecuteResponse::CreatedTable => ExecuteResponseKind::CreatedTable,
            ExecuteResponse::CreatedView => ExecuteResponseKind::CreatedView,
            ExecuteResponse::CreatedViews => ExecuteResponseKind::CreatedViews,
            ExecuteResponse::CreatedMaterializedView => ExecuteResponseKind::CreatedMaterializedView,
            ExecuteResponse::CreatedType => ExecuteResponseKind::CreatedType,
            ExecuteResponse::Deallocate { .. } => ExecuteResponseKind::Deallocate,
            ExecuteResponse::DeclaredCursor => ExecuteResponseKind::DeclaredCursor,
            ExecuteResponse::Deleted(_) => ExecuteResponseKind::Deleted,
            ExecuteResponse::DiscardedTemp => ExecuteResponseKind::DiscardedTemp,
            ExecuteResponse::DiscardedAll => ExecuteResponseKind::DiscardedAll,
            ExecuteResponse::DroppedObject(_) => ExecuteResponseKind::DroppedObject,
            ExecuteResponse::DroppedOwned => ExecuteResponseKind::DroppedOwned,
            ExecuteResponse::EmptyQuery => ExecuteResponseKind::EmptyQuery,
            ExecuteResponse::Fetch { .. } => ExecuteResponseKind::Fetch,
            ExecuteResponse::GrantedPrivilege => ExecuteResponseKind::GrantedPrivilege,
            ExecuteResponse::GrantedRole => ExecuteResponseKind::GrantedRole,
            ExecuteResponse::Inserted(_) => ExecuteResponseKind::Inserted,
            ExecuteResponse::Prepare => ExecuteResponseKind::Prepare,
            ExecuteResponse::Raised => ExecuteResponseKind::Raised,
            ExecuteResponse::ReassignOwned => ExecuteResponseKind::ReassignOwned,
            ExecuteResponse::RevokedPrivilege => ExecuteResponseKind::RevokedPrivilege,
            ExecuteResponse::RevokedRole => ExecuteResponseKind::RevokedRole,
            ExecuteResponse::SendingRows(_) => ExecuteResponseKind::SendingRows,
            ExecuteResponse::SetVariable { .. } => ExecuteResponseKind::SetVariable,
            ExecuteResponse::StartedTransaction => ExecuteResponseKind::StartedTransaction,
            ExecuteResponse::Subscribing => ExecuteResponseKind::Subscribing,
            ExecuteResponse::TransactionCommitted => ExecuteResponseKind::TransactionCommitted,
            ExecuteResponse::TransactionRolledBack => ExecuteResponseKind::TransactionRolledBack,
            ExecuteResponse::Updated(_) => ExecuteResponseKind::Updated,
            ExecuteResponse::ValidatedConnection => ExecuteResponseKind::ValidatedConnection,
        }
    }

    /// The kinds of response that a plan of kind `plan` may give.
    pub open spec fn generated_from_spec(plan: PlanKind) -> Seq<ExecuteResponseKind> {
        match plan {
            PlanKind::AbortTransaction | PlanKind::CommitTransaction => seq![
                ExecuteResponseKind::TransactionCommitted,
                ExecuteResponseKind::TransactionRolledBack,
            ],
            PlanKind::AlterCluster
            | PlanKind::AlterClusterProfile
            | PlanKind::AlterClusterRename
            | PlanKind::AlterClusterItemRename
            | PlanKind::AlterSetCluster
            | PlanKind::AlterItemRename
            | PlanKind::AlterNoop
            | PlanKind::AlterOwner
            | PlanKind::AlterSecret
            | PlanKind::AlterSink
            | PlanKind::AlterSource
            | PlanKind::PurifiedAlterSource
            | PlanKind::RotateKeys => seq![ExecuteResponseKind::AlteredObject],
            PlanKind::AlterDefaultPrivileges => seq![ExecuteResponseKind::AlteredDefaultPrivileges],
            PlanKind::AlterIndexSetOptions | PlanKind::AlterIndexResetOptions => seq![
                ExecuteResponseKind::AlteredObject,
                ExecuteResponseKind::AlteredIndexLogicalCompaction,
            ],
            PlanKind::AlterRole => seq![ExecuteResponseKind::AlteredRole],
            PlanKind::AlterSystemSet
            | PlanKind::AlterSystemReset
            | PlanKind::AlterSystemResetAll => seq![ExecuteResponseKind::AlteredSystemConfiguration],
            PlanKind::Close => seq![ExecuteResponseKind::ClosedCursor],
            PlanKind::CopyFrom => seq![ExecuteResponseKind::CopyFrom],
            PlanKind::CreateConnection => seq![ExecuteResponseKind::CreatedConnection],
            PlanKind::CreateDatabase => seq![ExecuteResponseKind::CreatedDatabase],
            PlanKind::CreateSchema => seq![ExecuteResponseKind::CreatedSchema],
            PlanKind::CreateRole => seq![ExecuteResponseKind::CreatedRole],
            PlanKind::CreateCluster | PlanKind::CreateClusterProfile => seq![
                ExecuteResponseKind::CreatedCluster,
            ],
            PlanKind::CreateClusterReplica => seq![ExecuteResponseKind::CreatedClusterReplica],
            PlanKind::CreateSource | PlanKind::CreateSources => seq![
                ExecuteResponseKind::CreatedSource,
                ExecuteResponseKind::CreatedSources,
            ],
            PlanKind::CreateSecret => seq![ExecuteResponseKind::CreatedSecret],
            PlanKind::CreateSink => seq![ExecuteResponseKind::CreatedSink],
            PlanKind::CreateTable => seq![ExecuteResponseKind::CreatedTable],
            PlanKind::CreateView => seq![ExecuteResponseKind::CreatedView],
            PlanKind::CreateMaterializedView => seq![ExecuteResponseKind::CreatedMaterializedView],
            PlanKind::CreateIndex => seq![ExecuteResponseKind::CreatedIndex],
            PlanKind::CreateType => seq![ExecuteResponseKind::CreatedType],
            PlanKind::Deallocate => seq![ExecuteResponseKind::Deallocate],
            PlanKind::Declare => seq![ExecuteResponseKind::DeclaredCursor],
            PlanKind::DiscardTemp => seq![ExecuteResponseKind::DiscardedTemp],
            PlanKind::DiscardAll => seq![ExecuteResponseKind::DiscardedAll],
            PlanKind::DropObjects => seq![ExecuteResponseKind::DroppedObject],
            PlanKind::DropOwned => seq![ExecuteResponseKind::DroppedOwned],
            PlanKind::EmptyQuery => seq![ExecuteResponseKind::EmptyQuery],
            PlanKind::ExplainPlan
            | PlanKind::ExplainTimestamp
            | PlanKind::Select
            | PlanKind::ShowAllVariables
            | PlanKind::ShowCreate
            | PlanKind::ShowColumns
            | PlanKind::ShowVariable
            | PlanKind::InspectShard => seq![
                ExecuteResponseKind::CopyTo,
                ExecuteResponseKind::SendingRows,
            ],
            PlanKind::Execute | PlanKind::ReadThenWrite => seq![
                ExecuteResponseKind::Deleted,
                ExecuteResponseKind::Inserted,
                ExecuteResponseKind::SendingRows,
                ExecuteResponseKind::Updated,
            ],
            PlanKind::Fetch => seq![ExecuteResponseKind::Fetch],
            PlanKind::GrantPrivileges => seq![ExecuteResponseKind::GrantedPrivilege],
            PlanKind::GrantRole => seq![ExecuteResponseKind::GrantedRole],
            PlanKind::Insert => seq![
                ExecuteResponseKind::Inserted,
                ExecuteResponseKind::SendingRows,
            ],
            PlanKind::Prepare => seq![ExecuteResponseKind::Prepare],
            PlanKind::Raise => seq![ExecuteResponseKind::Raised],
            PlanKind::ReassignOwned => seq![ExecuteResponseKind::ReassignOwned],
            PlanKind::RevokePrivileges => seq![ExecuteResponseKind::RevokedPrivilege],
            PlanKind::RevokeRole => seq![ExecuteResponseKind::RevokedRole],
            PlanKind::SetVariable | PlanKind::ResetVariable | PlanKind::SetTransaction => seq![
                ExecuteResponseKind::SetVariable,
            ],
            PlanKind::Subscribe => seq![
                ExecuteResponseKind::Subscribing,
                ExecuteResponseKind::CopyTo,
            ],
            PlanKind::StartTransaction => seq![ExecuteResponseKind::StartedTransaction],
            PlanKind::SideEffectingFunc => seq![ExecuteResponseKind::SendingRows],
            PlanKind::ValidateConnection => seq![ExecuteResponseKind::ValidatedConnection],
        }
    }

    pub fn generated_from(plan: PlanKind) -> (kinds: Vec<ExecuteResponseKind>)
        ensures
            kinds@ == Self::generated_from_spec(plan),
    {
        match plan {
            PlanKind::AbortTransaction | PlanKind::CommitTransaction => vec![
                ExecuteResponseKind::TransactionCommitted,
                ExecuteResponseKind::TransactionRolledBack,
            ],
            PlanKind::AlterCluster
            | PlanKind::AlterClusterProfile
            | PlanKind::AlterClusterRename
            | PlanKind::AlterClusterItemRename
            | PlanKind::AlterSetCluster
            | PlanKind::AlterItemRename
            | PlanKind::AlterNoop
            | PlanKind::AlterOwner
            | PlanKind::AlterSecret
            | PlanKind::AlterSink
            | PlanKind::AlterSource
            | PlanKind::PurifiedAlterSource
            | PlanKind::RotateKeys => vec![ExecuteResponseKind::AlteredObject],
            PlanKind::AlterDefaultPrivileges => vec![ExecuteResponseKind::AlteredDefaultPrivileges],
            PlanKind::AlterIndexSetOptions | PlanKind::AlterIndexResetOptions => vec![
                ExecuteResponseKind::AlteredObject,
                ExecuteResponseKind::AlteredIndexLogicalCompaction,
            ],
            PlanKind::AlterRole => vec![ExecuteResponseKind::AlteredRole],
            PlanKind::AlterSystemSet
            | PlanKind::AlterSystemReset
            | PlanKind::AlterSystemResetAll => vec![ExecuteResponseKind::AlteredSystemConfiguration],
            PlanKind::Close => vec![ExecuteResponseKind::ClosedCursor],
            PlanKind::CopyFrom => vec![ExecuteResponseKind::CopyFrom],
            PlanKind::CreateConnection => vec![ExecuteResponseKind::CreatedConnection],
            PlanKind::CreateDatabase => vec![ExecuteResponseKind::CreatedDatabase],
            PlanKind::CreateSchema => vec![ExecuteResponseKind::CreatedSchema],
            PlanKind::CreateRole => vec![ExecuteResponseKind::CreatedRole],
            PlanKind::CreateCluster | PlanKind::CreateClusterProfile => vec![
                ExecuteResponseKind::CreatedCluster,
            ],
            PlanKind::CreateClusterReplica => vec![ExecuteResponseKind::CreatedClusterReplica],
            PlanKind::CreateSource | PlanKind::CreateSources => vec![
                ExecuteResponseKind::CreatedSource,
                ExecuteResponseKind::CreatedSources,
            ],
            PlanKind::CreateSecret => vec![ExecuteResponseKind::CreatedSecret],
            PlanKind::CreateSink => vec![ExecuteResponseKind::CreatedSink],
            PlanKind::CreateTable => vec![ExecuteResponseKind::CreatedTable],
            PlanKind::CreateView => vec![ExecuteResponseKind::CreatedView],
            PlanKind::CreateMaterializedView => vec![ExecuteResponseKind::CreatedMaterializedView],
            PlanKind::CreateIndex => vec![ExecuteResponseKind::CreatedIndex],
            PlanKind::CreateType => vec![ExecuteResponseKind::CreatedType],
            PlanKind::Deallocate => vec![ExecuteResponseKind::Deallocate],
            PlanKind::Declare => vec![ExecuteResponseKind::DeclaredCursor],
            PlanKind::DiscardTemp => vec![ExecuteResponseKind::DiscardedTemp],
            PlanKind::DiscardAll => vec![ExecuteResponseKind::DiscardedAll],
            PlanKind::DropObjects => vec![ExecuteResponseKind::DroppedObject],
            PlanKind::DropOwned => vec![ExecuteResponseKind::DroppedOwned],
            PlanKind::EmptyQuery => vec![ExecuteResponseKind::EmptyQuery],
            PlanKind::ExplainPlan
            | PlanKind::ExplainTimestamp
            | PlanKind::Select
            | PlanKind::ShowAllVariables
            | PlanKind::ShowCreate
            | PlanKind::ShowColumns
            | PlanKind::ShowVariable
            | PlanKind::InspectShard => vec![
                ExecuteResponseKind::CopyTo,
                ExecuteResponseKind::SendingRows,
            ],
            PlanKind::Execute | PlanKind::ReadThenWrite => vec![
                ExecuteResponseKind::Deleted,
                ExecuteResponseKind::Inserted,
                ExecuteResponseKind::SendingRows,
                ExecuteResponseKind::Updated,
            ],
            PlanKind::Fetch => vec![ExecuteResponseKind::Fetch],
            PlanKind::GrantPrivileges => vec![ExecuteResponseKind::GrantedPrivilege],
            PlanKind::GrantRole => vec![ExecuteResponseKind::GrantedRole],
            PlanKind::Insert => vec![
                ExecuteResponseKind::Inserted,
                ExecuteResponseKind::SendingRows,
            ],
            PlanKind::Prepare => vec![ExecuteResponseKind::Prepare],
            PlanKind::Raise => vec![ExecuteResponseKind::Raised],
            PlanKind::ReassignOwned => vec![ExecuteResponseKind::ReassignOwned],
            PlanKind::RevokePrivileges => vec![ExecuteResponseKind::RevokedPrivilege],
            PlanKind::RevokeRole => vec![ExecuteResponseKind::RevokedRole],
            PlanKind::SetVariable | PlanKind::ResetVariable | PlanKind::SetTransaction => vec![
                ExecuteResponseKind::SetVariable,
            ],
            PlanKind::Subscribe => vec![
                ExecuteResponseKind::Subscribing,
                ExecuteResponseKind::CopyTo,
            ],
            PlanKind::StartTransaction => vec![ExecuteResponseKind::StartedTransaction],
            PlanKind::SideEffectingFunc => vec![ExecuteResponseKind::SendingRows],
            PlanKind::ValidateConnection => vec![ExecuteResponseKind::ValidatedConnection],
        }
    }
}

/// The kinds that a statement of kind `plan` may answer with: those that
/// the plan gives, and cancellation, which is always allowed.
pub open spec fn allowed_kinds(plan: PlanKind) -> Seq<ExecuteResponseKind> {
    ExecuteResponse::generated_from_spec(plan).push(ExecuteResponseKind::Canceled)
}

} // verus!
