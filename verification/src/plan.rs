//! Planned statements, as the sequencer receives them.

use crate::error::NoticeSeverity;
use crate::repr::{Datum, Diff, GlobalId, Row};
use crate::session::{IsolationLevel, Statement, StatementDesc, TransactionAccessMode};
use vstd::prelude::*;

verus! {

/// The kinds of catalog object.
#[derive(Clone, Copy, Debug, PartialEq, Eq, Structural)]
pub enum ObjectType {
    Table,
    View,
    MaterializedView,
    Source,
    Sink,
    Index,
    Type,
    Role,
    Cluster,
    ClusterReplica,
    Secret,
    Connection,
    Database,
    Schema,
    Func,
}

/// The identifier of a compute cluster.
#[derive(Clone, Copy, Debug, PartialEq, Eq, Structural)]
pub enum ClusterId {
    System(u64),
    User(u64),
}

/// The cluster that a plan is to run on.
#[derive(Clone, Copy, Debug, PartialEq, Eq, Structural)]
pub enum TargetCluster {
    /// The cluster reserved for queries on the system catalog.
    Introspection,
    /// The session's active cluster.
    Active,
    /// The cluster that the open transaction runs on.
    Transaction(ClusterId),
}

/// Whether `COMMIT` or `ROLLBACK` was written by the client or made up
/// around a single statement.
#[derive(Clone, Copy, Debug, PartialEq, Eq, Structural)]
pub enum TransactionType {
    Explicit,
    Implicit,
}

impl TransactionType {
    pub open spec fn is_implicit_spec(&self) -> bool {
        *self == TransactionType::Implicit
    }

    #[verifier::when_used_as_spec(is_implicit_spec)]
    pub fn is_implicit(&self) -> (b: bool)
        ensures
            b == self.is_implicit_spec(),
    {
        match self {
            TransactionType::Implicit => true,
            TransactionType::Explicit => false,
        }
    }
}

/// What a statement does to the rows of a relation.
#[derive(Clone, Copy, Debug, PartialEq, Eq, Structural)]
pub enum MutationKind {
    Insert,
    Update,
    Delete,
}

/// How many rows a `FETCH` asks for.
#[derive(Clone, Copy, Debug, PartialEq, Eq, Structural)]
pub enum FetchDirection {
    ForwardAll,
    ForwardCount(u64),
}

/// How long a `FETCH` waits for rows.
#[derive(Clone, Copy, Debug, PartialEq, Eq, Structural)]
pub enum ExecuteTimeout {
    /// It does not wait.
    NoWait,
    /// It waits this many milliseconds.
    Millis(u64),
    /// It waits for the first batch.
    WaitOnce,
}

/// The rows that a statement computes before it writes them.
#[derive(Debug, PartialEq, Eq)]
pub enum MirRelationExpr {
    /// Rows known without evaluation, or the error of their evaluation.
    Constant { rows: Result<Vec<(Row, Diff)>, String> },
    /// Rows that a query has to compute.
    Query,
}

impl MirRelationExpr {
    /// The rows, where they are constant.
    pub fn as_const(&self) -> (rows: Option<&Result<Vec<(Row, Diff)>, String>>)
        ensures
            match rows {
                Some(r) => self matches MirRelationExpr::Constant { rows } && *r == rows,
                None => self is Query,
            },
    {
        match self {
            MirRelationExpr::Constant { rows } => Some(rows),
            MirRelationExpr::Query => None,
        }
    }
}

/// The changes of one statement to one relation.
#[derive(Debug, PartialEq, Eq)]
pub struct SendDiffsPlan {
    /// The relation written to.
    pub id: GlobalId,
    /// The changes.
    pub updates: Vec<(Row, Diff)>,
    /// What the statement was.
    pub kind: MutationKind,
    /// The rows to hand back to the client, each with the number of times
    /// it is handed back, which is positive. Empty where the statement
    /// returns none.
    pub returning: Vec<(Row, usize)>,
    /// The most bytes that returned rows may take.
    pub max_result_size: u32,
}

/// The catalog objects that a plan depends on.
#[derive(Debug, PartialEq, Eq)]
pub struct ResolvedIds(pub Vec<GlobalId>);

/// The kind of a plan.
#[derive(Clone, Copy, Debug, PartialEq, Eq, Structural)]
pub enum PlanKind {
    CreateSource,
    CreateSources,
    CreateConnection,
    CreateDatabase,
    CreateSchema,
    CreateRole,
    CreateCluster,
    CreateClusterProfile,
    CreateClusterReplica,
    CreateTable,
    CreateSecret,
    CreateSink,
    CreateView,
    CreateMaterializedView,
    CreateIndex,
    CreateType,
    DropObjects,
    DropOwned,
    EmptyQuery,
    ShowAllVariables,
    ShowVariable,
    InspectShard,
    SetVariable,
    ResetVariable,
    SetTransaction,
    StartTransaction,
    CommitTransaction,
    AbortTransaction,
    Select,
    Subscribe,
    SideEffectingFunc,
    ShowCreate,
    ShowColumns,
    CopyFrom,
    ExplainPlan,
    ExplainTimestamp,
    Insert,
    ReadThenWrite,
    AlterNoop,
    AlterCluster,
    AlterClusterProfile,
    AlterClusterRename,
    AlterClusterItemRename,
    AlterSetCluster,
    AlterItemRename,
    AlterIndexSetOptions,
    AlterIndexResetOptions,
    AlterRole,
    AlterSecret,
    AlterSink,
    PurifiedAlterSource,
    AlterSource,
    AlterSystemSet,
    AlterSystemReset,
    AlterSystemResetAll,
    DiscardTemp,
    DiscardAll,
    Declare,
    Fetch,
    Close,
    Prepare,
    Execute,
    Deallocate,
    Raise,
    RotateKeys,
    GrantPrivileges,
    RevokePrivileges,
    AlterDefaultPrivileges,
    GrantRole,
    RevokeRole,
    AlterOwner,
    ReassignOwned,
    ValidateConnection,
}

/// A planned statement. A variant carries what the sequencer reads of the
/// plan; what only a handler reads stays with the caller.
#[derive(Debug, PartialEq, Eq)]
#[allow(inconsistent_fields)]
pub enum Plan {
    CreateSource,
    CreateSources,
    CreateConnection,
    CreateDatabase,
    CreateSchema,
    CreateRole,
    CreateCluster,
    CreateClusterProfile,
    CreateClusterReplica,
    CreateTable,
    CreateSecret,
    CreateSink,
    CreateView,
    CreateMaterializedView,
    CreateIndex,
    CreateType,
    DropObjects,
    DropOwned,
    EmptyQuery,
    ShowAllVariables,
    ShowVariable,
    InspectShard,
    SetVariable,
    ResetVariable,
    SetTransaction,
    StartTransaction { access: Option<TransactionAccessMode>, isolation_level: Option<IsolationLevel> },
    CommitTransaction { transaction_type: TransactionType },
    AbortTransaction { transaction_type: TransactionType },
    Select,
    Subscribe,
    SideEffectingFunc,
    ShowCreate { row: Row },
    ShowColumns,
    CopyFrom { id: GlobalId, columns: Vec<usize> },
    ExplainPlan,
    ExplainTimestamp,
    Insert { id: GlobalId, values: MirRelationExpr, returning: Vec<usize> },
    ReadThenWrite,
    AlterNoop { object_type: ObjectType },
    AlterCluster,
    AlterClusterProfile,
    AlterClusterRename,
    AlterClusterItemRename,
    AlterSetCluster,
    AlterItemRename,
    AlterIndexSetOptions,
    AlterIndexResetOptions,
    AlterRole,
    AlterSecret,
    AlterSink,
    PurifiedAlterSource,
    AlterSource,
    AlterSystemSet,
    AlterSystemReset,
    AlterSystemResetAll,
    DiscardTemp,
    DiscardAll,
    Declare { name: String, stmt: Statement, sql: String },
    Fetch { name: String, count: Option<FetchDirection>, timeout: ExecuteTimeout },
    Close { name: String },
    Prepare { name: String, stmt: Statement, sql: String, desc: StatementDesc },
    Execute { name: String, params: Vec<Datum> },
    Deallocate { name: Option<String> },
    Raise { severity: NoticeSeverity },
    RotateKeys { id: GlobalId },
    GrantPrivileges,
    RevokePrivileges,
    AlterDefaultPrivileges,
    GrantRole,
    RevokeRole,
    AlterOwner,
    ReassignOwned,
    ValidateConnection { id: GlobalId },
}

/// How a plan comes to its answer.
#[derive(Clone, Copy, Debug, PartialEq, Eq, Structural)]
pub enum Shape {
    /// A handler runs at once and its result is the answer.
    Handled,
    /// A routine takes the statement over and answers later.
    Deferred,
    /// The sequencer answers from the session alone.
    Local,
    /// The plan cannot be sequenced: an earlier stage has to rewrite it.
    Unreachable,
}

impl PlanKind {
    /// How a plan of this kind comes to its answer.
    pub open spec fn shape_spec(&self) -> Shape {
        match self {
            PlanKind::CreateConnection
            | PlanKind::CreateSink
            | PlanKind::Select
            | PlanKind::ShowColumns
            | PlanKind::ExplainPlan
            | PlanKind::ExplainTimestamp
            | PlanKind::Insert
            | PlanKind::ReadThenWrite
            | PlanKind::ValidateConnection => Shape::Deferred,
            PlanKind::EmptyQuery
            | PlanKind::StartTransaction
            | PlanKind::CommitTransaction
            | PlanKind::AbortTransaction
            | PlanKind::ShowCreate
            | PlanKind::CopyFrom
            | PlanKind::AlterNoop
            | PlanKind::DiscardTemp
            | PlanKind::DiscardAll
            | PlanKind::Declare
            | PlanKind::Fetch
            | PlanKind::Close
            | PlanKind::Prepare
            | PlanKind::Execute
            | PlanKind::Deallocate
            | PlanKind::Raise => Shape::Local,
            PlanKind::AlterSource => Shape::Unreachable,
            _ => Shape::Handled,
        }
    }

    #[verifier::when_used_as_spec(shape_spec)]
    pub fn shape(&self) -> (shape: Shape)
        ensures
            shape == self.shape_spec(),
    {
        match self {
            PlanKind::CreateConnection
            | PlanKind::CreateSink
            | PlanKind::Select
            | PlanKind::ShowColumns
            | PlanKind::ExplainPlan
            | PlanKind::ExplainTimestamp
            | PlanKind::Insert
            | PlanKind::ReadThenWrite
            | PlanKind::ValidateConnection => Shape::Deferred,
            PlanKind::EmptyQuery
            | PlanKind::StartTransaction
            | PlanKind::CommitTransaction
            | PlanKind::AbortTransaction
            | PlanKind::ShowCreate
            | PlanKind::CopyFrom
            | PlanKind::AlterNoop
            | PlanKind::DiscardTemp
            | PlanKind::DiscardAll
            | PlanKind::Declare
            | PlanKind::Fetch
            | PlanKind::Close
            | PlanKind::Prepare
            | PlanKind::Execute
            | PlanKind::Deallocate
            | PlanKind::Raise => Shape::Local,
            PlanKind::AlterSource => Shape::Unreachable,
            _ => Shape::Handled,
        }
    }
}

impl Plan {
    /// The kind of the plan.
    pub open spec fn kind_spec(&self) -> PlanKind {
        match self {
            Plan::CreateSource => PlanKind::CreateSource,
            Plan::CreateSources => PlanKind::CreateSources,
            Plan::CreateConnection => PlanKind::CreateConnection,
            Plan::CreateDatabase => PlanKind::CreateDatabase,
            Plan::CreateSchema => PlanKind::CreateSchema,
            Plan::CreateRole => PlanKind::CreateRole,
            Plan::CreateCluster => PlanKind::CreateCluster,
            Plan::CreateClusterProfile => PlanKind::CreateClusterProfile,
            Plan::CreateClusterReplica => PlanKind::CreateClusterReplica,
            Plan::CreateTable => PlanKind::CreateTable,
            Plan::CreateSecret => PlanKind::CreateSecret,
            Plan::CreateSink => PlanKind::CreateSink,
            Plan::CreateView => PlanKind::CreateView,
            Plan::CreateMaterializedView => PlanKind::CreateMaterializedView,
            Plan::CreateIndex => PlanKind::CreateIndex,
            Plan::CreateType => PlanKind::CreateType,
            Plan::DropObjects => PlanKind::DropObjects,
            Plan::DropOwned => PlanKind::DropOwned,
            Plan::EmptyQuery => PlanKind::EmptyQuery,
            Plan::ShowAllVariables => PlanKind::ShowAllVariables,
            Plan::ShowVariable => PlanKind::ShowVariable,
            Plan::InspectShard => PlanKind::InspectShard,
            Plan::SetVariable => PlanKind::SetVariable,
            Plan::ResetVariable => PlanKind::ResetVariable,
            Plan::SetTransaction => PlanKind::SetTransaction,
            Plan::StartTransaction { .. } => PlanKind::StartTransaction,
            Plan::CommitTransaction { .. } => PlanKind::CommitTransaction,
            Plan::AbortTransaction { .. } => PlanKind::AbortTransaction,
            Plan::Select => PlanKind::Select,
            Plan::Subscribe => PlanKind::Subscribe,
            Plan::SideEffectingFunc => PlanKind::SideEffectingFunc,
            Plan::ShowCreate { .. } => PlanKind::ShowCreate,
            Plan::ShowColumns => PlanKind::ShowColumns,
            Plan::CopyFrom { .. } => PlanKind::CopyFrom,
            Plan::ExplainPlan => PlanKind::ExplainPlan,
            Plan::ExplainTimestamp => PlanKind::ExplainTimestamp,
            Plan::Insert { .. } => PlanKind::Insert,
            Plan::ReadThenWrite => PlanKind::ReadThenWrite,
            Plan::AlterNoop { .. } => PlanKind::AlterNoop,
            Plan::AlterCluster => PlanKind::AlterCluster,
            Plan::AlterClusterProfile => PlanKind::AlterClusterProfile,
            Plan::AlterClusterRename => PlanKind::AlterClusterRename,
            Plan::AlterClusterItemRename => PlanKind::AlterClusterItemRename,
            Plan::AlterSetCluster => PlanKind::AlterSetCluster,
            Plan::AlterItemRename => PlanKind::AlterItemRename,
            Plan::AlterIndexSetOptions => PlanKind::AlterIndexSetOptions,
            Plan::AlterIndexResetOptions => PlanKind::AlterIndexResetOptions,
            Plan::AlterRole => PlanKind::AlterRole,
            Plan::AlterSecret => PlanKind::AlterSecret,
            Plan::AlterSink => PlanKind::AlterSink,
            Plan::PurifiedAlterSource => PlanKind::PurifiedAlterSource,
            Plan::AlterSource => PlanKind::AlterSource,
            Plan::AlterSystemSet => PlanKind::AlterSystemSet,
            Plan::AlterSystemReset => PlanKind::AlterSystemReset,
            Plan::AlterSystemResetAll => PlanKind::AlterSystemResetAll,
            Plan::DiscardTemp => PlanKind::DiscardTemp,
            Plan::DiscardAll => PlanKind::DiscardAll,
            Plan::Declare { .. } => PlanKind::Declare,
            Plan::Fetch { .. } => PlanKind::Fetch,
            Plan::Close { .. } => PlanKind::Close,
            Plan::Prepare { .. } => PlanKind::Prepare,
            Plan::Execute { .. } => PlanKind::Execute,
            Plan::Deallocate { .. } => PlanKind::Deallocate,
            Plan::Raise { .. } => PlanKind::Raise,
            Plan::RotateKeys { .. } => PlanKind::RotateKeys,
            Plan::GrantPrivileges => PlanKind::GrantPrivileges,
            Plan::RevokePrivileges => PlanKind::RevokePrivileges,
            Plan::AlterDefaultPrivileges => PlanKind::AlterDefaultPrivileges,
            Plan::GrantRole => PlanKind::GrantRole,
            Plan::RevokeRole => PlanKind::RevokeRole,
            Plan::AlterOwner => PlanKind::AlterOwner,
            Plan::ReassignOwned => PlanKind::ReassignOwned,
            Plan::ValidateConnection { .. } => PlanKind::ValidateConnection,
        }
    }

    #[verifier::when_used_as_spec(kind_spec)]
    pub fn kind(&self) -> (k: PlanKind)
        ensures
            k == self.kind_spec(),
    {
        match self {
            Plan::CreateSource => PlanKind::CreateSource,
            Plan::CreateSources => PlanKind::CreateSources,
            Plan::CreateConnection => PlanKind::CreateConnection,
            Plan::CreateDatabase => PlanKind::CreateDatabase,
            Plan::CreateSchema => PlanKind::CreateSchema,
            Plan::CreateRole => PlanKind::CreateRole,
            Plan::CreateCluster => PlanKind::CreateCluster,
            Plan::CreateClusterProfile => PlanKind::CreateClusterProfile,
            Plan::CreateClusterReplica => PlanKind::CreateClusterReplica,
            Plan::CreateTable => PlanKind::CreateTable,
            Plan::CreateSecret => PlanKind::CreateSecret,
            Plan::CreateSink => PlanKind::CreateSink,
            Plan::CreateView => PlanKind::CreateView,
            Plan::CreateMaterializedView => PlanKind::CreateMaterializedView,
            Plan::CreateIndex => PlanKind::CreateIndex,
            Plan::CreateType => PlanKind::CreateType,
            Plan::DropObjects => PlanKind::DropObjects,
            Plan::DropOwned => PlanKind::DropOwned,
            Plan::EmptyQuery => PlanKind::EmptyQuery,
            Plan::ShowAllVariables => PlanKind::ShowAllVariables,
            Plan::ShowVariable => PlanKind::ShowVariable,
            Plan::InspectShard => PlanKind::InspectShard,
            Plan::SetVariable => PlanKind::SetVariable,
            Plan::ResetVariable => PlanKind::ResetVariable,
            Plan::SetTransaction => PlanKind::SetTransaction,
            Plan::StartTransaction { .. } => PlanKind::StartTransaction,
            Plan::CommitTransaction { .. } => PlanKind::CommitTransaction,
            Plan::AbortTransaction { .. } => PlanKind::AbortTransaction,
            Plan::Select => PlanKind::Select,
            Plan::Subscribe => PlanKind::Subscribe,
            Plan::SideEffectingFunc => PlanKind::SideEffectingFunc,
            Plan::ShowCreate { .. } => PlanKind::ShowCreate,
            Plan::ShowColumns => PlanKind::ShowColumns,
            Plan::CopyFrom { .. } => PlanKind::CopyFrom,
            Plan::ExplainPlan => PlanKind::ExplainPlan,
            Plan::ExplainTimestamp => PlanKind::ExplainTimestamp,
            Plan::Insert { .. } => PlanKind::Insert,
            Plan::ReadThenWrite => PlanKind::ReadThenWrite,
            Plan::AlterNoop { .. } => PlanKind::AlterNoop,
            Plan::AlterCluster => PlanKind::AlterCluster,
            Plan::AlterClusterProfile => PlanKind::AlterClusterProfile,
            Plan::AlterClusterRename => PlanKind::AlterClusterRename,
            Plan::AlterClusterItemRename => PlanKind::AlterClusterItemRename,
            Plan::AlterSetCluster => PlanKind::AlterSetCluster,
            Plan::AlterItemRename => PlanKind::AlterItemRename,
            Plan::AlterIndexSetOptions => PlanKind::AlterIndexSetOptions,
            Plan::AlterIndexResetOptions => PlanKind::AlterIndexResetOptions,
            Plan::AlterRole => PlanKind::AlterRole,
            Plan::AlterSecret => PlanKind::AlterSecret,
            Plan::AlterSink => PlanKind::AlterSink,
            Plan::PurifiedAlterSource => PlanKind::PurifiedAlterSource,
            Plan::AlterSource => PlanKind::AlterSource,
            Plan::AlterSystemSet => PlanKind::AlterSystemSet,
            Plan::AlterSystemReset => PlanKind::AlterSystemReset,
            Plan::AlterSystemResetAll => PlanKind::AlterSystemResetAll,
            Plan::DiscardTemp => PlanKind::DiscardTemp,
            Plan::DiscardAll => PlanKind::DiscardAll,
            Plan::Declare { .. } => PlanKind::Declare,
            Plan::Fetch { .. } => PlanKind::Fetch,
            Plan::Close { .. } => PlanKind::Close,
            Plan::Prepare { .. } => PlanKind::Prepare,
            Plan::Execute { .. } => PlanKind::Execute,
            Plan::Deallocate { .. } => PlanKind::Deallocate,
            Plan::Raise { .. } => PlanKind::Raise,
            Plan::RotateKeys { .. } => PlanKind::RotateKeys,
            Plan::GrantPrivileges => PlanKind::GrantPrivileges,
            Plan::RevokePrivileges => PlanKind::RevokePrivileges,
            Plan::AlterDefaultPrivileges => PlanKind::AlterDefaultPrivileges,
            Plan::GrantRole => PlanKind::GrantRole,
            Plan::RevokeRole => PlanKind::RevokeRole,
            Plan::AlterOwner => PlanKind::AlterOwner,
            Plan::ReassignOwned => PlanKind::ReassignOwned,
            Plan::ValidateConnection { .. } => PlanKind::ValidateConnection,
        }
    }
}

} // verus!
