//! The plan sequencer: every plan is authorized first and dispatched
//! then, each kind of plan to its one answer.
//!
//! The sequencer does no work outside the session and the catalog that it
//! holds. Where a check or the catalog has to be asked, it stops with a
//! request and goes on when it is given the reply.

use crate::context::{ExecuteContext, Response};
use crate::coordinator::{rbac_enabled, Coordinator};
use crate::error::{AdapterError, AdapterNotice};
use crate::plan::{ClusterId, Plan, PlanKind, ResolvedIds, Shape, TargetCluster, TransactionType};
use crate::repr::GlobalId;
use crate::response::{
    allowed_kinds, ExecuteContextExtra, ExecuteResponse, ExecuteResponseKind,
};
use crate::session::{
    EndTransactionAction, Portal, PortalState, PreparedStatement, Session, Statement, Touched,
    TransactionOps, TransactionStatus, WriteOp,
};
use vstd::prelude::*;

verus! {

/// What the sequencer asks for before it goes on.
#[derive(Clone, Copy, Debug, PartialEq, Eq, Structural)]
pub enum Request {
    /// Whether the plan may introspect the system whatever the session's
    /// privileges are.
    CheckIntrospectionPrivileges,
    /// Whether the plan may run on the session's cluster.
    CheckClusterRestrictions,
    /// The cluster that the plan is to run on.
    ResolveTargetCluster,
    /// Whether the session's role holds the privileges that the plan
    /// needs on the cluster that was resolved.
    CheckAccess { target_cluster_id: Option<ClusterId> },
    /// An identifier for the source that the plan creates.
    AllocateUserId,
    /// That the temporary objects of the session be dropped.
    DropTempItems,
}

/// The reply to a request.
#[derive(Debug)]
pub enum Reply {
    /// The outcome of a check.
    Checked(Result<(), AdapterError>),
    /// The cluster to run on, and its identifier where there is such a
    /// cluster.
    TargetCluster { target_cluster: TargetCluster, target_cluster_id: Option<ClusterId> },
    /// The identifier that was allocated.
    Allocated(Result<GlobalId, AdapterError>),
    /// The temporary objects are dropped.
    TempItemsDropped,
}

/// A statement that waits for the reply to a request.
#[derive(Debug)]
pub struct Pending {
    ctx: ExecuteContext,
    plan: Plan,
    resolved_ids: ResolvedIds,
    request: Request,
    target_cluster: TargetCluster,
}

/// Work that goes on after the sequencer has let go of the statement. It
/// owns the context and retires it, once.
#[derive(Debug)]
pub enum Deferred {
    /// The routine of the plan.
    Plan { plan: Plan, resolved_ids: ResolvedIds, target_cluster: TargetCluster },
    /// The flush of the writes that a transaction had buffered when it was
    /// committed. Its outcome answers the `COMMIT`.
    Commit { writes: Vec<WriteOp> },
}

/// A message to the coordinator itself.
#[derive(Debug)]
pub enum Command {
    /// Run the cursor `portal_name` of the session and answer in place of
    /// the statement that opened it.
    Execute {
        portal_name: String,
        session: Session,
        allowed: Option<Vec<ExecuteResponseKind>>,
        outer_ctx_extra: Option<ExecuteContextExtra>,
    },
    /// End the session's transaction.
    Commit { action: EndTransactionAction, session: Session },
}

/// Where a statement stands after a step of the sequencer.
#[derive(Debug)]
pub enum Sequencing {
    /// It waits for a reply.
    Pending(Pending),
    /// Its handler is to run now. The result goes to
    /// `Coordinator::handled`.
    Handle {
        ctx: ExecuteContext,
        plan: Plan,
        resolved_ids: ResolvedIds,
        source_id: Option<GlobalId>,
        target_cluster: TargetCluster,
    },
    /// A deferred routine has taken it over.
    Delegated { ctx: ExecuteContext, work: Deferred },
    /// It goes on as a message to the coordinator.
    Forwarded(Command),
    /// It is answered.
    Retired(Response),
}

/// Whether the plan ends a transaction.
pub open spec fn ends_transaction(plan: Plan) -> bool {
    plan is CommitTransaction || plan is AbortTransaction
}

/// Whether the context has declared the kinds that a plan of kind `kind`
/// may answer with.
pub open spec fn declares(ctx: ExecuteContext, kind: PlanKind) -> bool {
    ctx.allowed matches Some(allowed) && allowed@ == allowed_kinds(kind)
}

impl Pending {
    #[verifier::type_invariant]
    spec fn well_formed(&self) -> bool {
        &&& !(self.plan is AlterSource)
        &&& self.plan is CreateSources ==> self.resolved_ids.0@.len() == 0
        &&& declares(self.ctx, self.plan.kind())
        &&& self.ctx.session.transaction is Failed ==> ends_transaction(self.plan)
        &&& self.request is AllocateUserId ==> self.plan is CreateSource
        &&& self.request is DropTempItems ==> self.plan is DiscardTemp || self.plan is DiscardAll
        &&& self.request is DropTempItems && self.plan is DiscardAll
            ==> self.ctx.session.transaction is Default
    }

    /// The context of the statement.
    pub closed spec fn ctx(&self) -> ExecuteContext {
        self.ctx
    }

    /// The plan of the statement.
    pub closed spec fn plan(&self) -> Plan {
        self.plan
    }

    /// The catalog objects that the plan depends on.
    pub closed spec fn resolved_ids(&self) -> ResolvedIds {
        self.resolved_ids
    }

    /// What the statement waits for.
    pub closed spec fn request_spec(&self) -> Request {
        self.request
    }

    /// The cluster that the plan is to run on. It means nothing before the
    /// cluster was resolved.
    pub closed spec fn target_cluster(&self) -> TargetCluster {
        self.target_cluster
    }

    /// Whether `next` is this statement, waiting for `request` now.
    pub open spec fn waits_for(&self, request: Request, next: Pending) -> bool {
        &&& next.ctx() == self.ctx()
        &&& next.plan() == self.plan()
        &&& next.resolved_ids() == self.resolved_ids()
        &&& next.target_cluster() == self.target_cluster()
        &&& next.request_spec() == request
    }

    #[verifier::when_used_as_spec(request_spec)]
    pub fn request(&self) -> (request: Request)
        ensures
            request == self.request_spec(),
    {
        self.request
    }

    pub fn session(&self) -> (session: &Session)
        ensures
            *session == self.ctx().session,
    {
        &self.ctx.session
    }

    pub fn plan_ref(&self) -> (plan: &Plan)
        ensures
            *plan == self.plan(),
    {
        &self.plan
    }

    pub fn resolved_ids_ref(&self) -> (ids: &ResolvedIds)
        ensures
            *ids == self.resolved_ids(),
    {
        &self.resolved_ids
    }
}

/// A kind that a plan gives is a kind that it may answer with, and so is
/// cancellation.
pub proof fn lemma_allowed(kind: PlanKind, i: int)
    requires
        0 <= i < ExecuteResponse::generated_from_spec(kind).len(),
    ensures
        allowed_kinds(kind).contains(ExecuteResponse::generated_from_spec(kind)[i]),
        allowed_kinds(kind).contains(ExecuteResponseKind::Canceled),
{
    let allowed = allowed_kinds(kind);
    assert(allowed[i] == ExecuteResponse::generated_from_spec(kind)[i]);
    assert(allowed[allowed.len() - 1] == ExecuteResponseKind::Canceled);
}

/// Whether `response` carries `result` and the session `before`, changed
/// in the parts that `touched` names and with the transaction that
/// `status` becomes once `result` is delivered.
pub open spec fn answered(
    before: Session,
    touched: Touched,
    status: TransactionStatus,
    result: Result<ExecuteResponse, AdapterError>,
    response: Response,
) -> bool {
    &&& response.result == result
    &&& response.session.transaction == ExecuteContext::status_after(status, result)
    &&& before.unchanged_but(
        response.session,
        Touched {
            transaction: true,
            prepared_statements: touched.prepared_statements,
            portals: touched.portals,
            vars: touched.vars,
            notices: touched.notices,
        },
    )
}

/// No part of the session.
pub open spec fn untouched() -> Touched {
    Touched {
        transaction: false,
        prepared_statements: false,
        portals: false,
        vars: false,
        notices: false,
    }
}

/// Whether `out` answers the statement of `ctx` with the error `e` and
/// leaves the session as it is but for the transaction, which fails.
pub open spec fn refused(ctx: ExecuteContext, e: AdapterError, out: Sequencing) -> bool {
    out matches Sequencing::Retired(response) && answered(
        ctx.session,
        untouched(),
        ctx.session.transaction,
        Err(e),
        response,
    )
}

/// Whether `out` answers the statement of `ctx` with `response` and leaves
/// the session as it is but for the transaction, in which a statement has
/// run.
pub open spec fn acknowledged(ctx: ExecuteContext, response: ExecuteResponse, out: Sequencing) -> bool {
    out matches Sequencing::Retired(r) && answered(
        ctx.session,
        untouched(),
        ctx.session.transaction,
        Ok(response),
        r,
    )
}

/// The notices of a session after one more.
pub open spec fn noticed(session: Session, notice: AdapterNotice) -> Seq<AdapterNotice> {
    session.notices@.push(notice)
}

/// The name of the statement that ends a transaction by `action`.
pub open spec fn end_statement(action: EndTransactionAction) -> Seq<char> {
    match action {
        EndTransactionAction::Commit => "COMMIT"@,
        EndTransactionAction::Rollback => "ROLLBACK"@,
    }
}

/// Whether `out` is what the end of the transaction by `action` makes of
/// the statement of `ctx`.
///
/// Without a transaction the statement is refused. A transaction that has
/// failed, or that is rolled back, ends with nothing written. A
/// transaction that is committed with writes buffered hands them to the
/// flush, whose outcome is the answer; without writes it is committed at
/// once. In each case the session has no transaction afterwards. Where
/// the client ends a transaction that it did not open, it is told so.
pub open spec fn transaction_ended(
    ctx: ExecuteContext,
    action: EndTransactionAction,
    transaction_type: TransactionType,
    out: Sequencing,
) -> bool {
    let before = ctx.session;
    let notices = if before.transaction.is_implicit() && !transaction_type.is_implicit() {
        noticed(before, AdapterNotice::ExplicitTransactionControlInImplicitTransaction)
    } else {
        before.notices@
    };
    let touched = Touched {
        transaction: true,
        prepared_statements: false,
        portals: false,
        vars: false,
        notices: true,
    };
    let flushed = match (action, before.transaction) {
        (EndTransactionAction::Commit, TransactionStatus::Started(txn))
        | (EndTransactionAction::Commit, TransactionStatus::InTransaction(txn)) => match txn.ops {
            TransactionOps::Writes(writes) => if writes@.len() > 0 {
                Some(writes)
            } else {
                None
            },
            _ => None,
        },
        _ => None,
    };
    match flushed {
        Some(writes) => {
            &&& out matches Sequencing::Delegated { ctx: handed, work }
            &&& work == Deferred::Commit { writes }
            &&& handed.allowed == ctx.allowed
            &&& handed.extra == ctx.extra
            &&& handed.session.transaction is Default
            &&& handed.session.notices@ == notices
            &&& before.unchanged_but(handed.session, touched)
        },
        None => {
            &&& out matches Sequencing::Retired(response)
            &&& response.session.transaction is Default
            &&& response.session.notices@ == notices
            &&& before.unchanged_but(response.session, touched)
            &&& match before.transaction {
                TransactionStatus::Default => response.result matches Err(
                    AdapterError::OperationRequiresTransaction(statement),
                ) && statement@ == end_statement(action),
                TransactionStatus::Failed(_) => response.result == Ok::<
                    ExecuteResponse,
                    AdapterError,
                >(ExecuteResponse::TransactionRolledBack),
                _ => response.result == Ok::<ExecuteResponse, AdapterError>(
                    match action {
                        EndTransactionAction::Commit => ExecuteResponse::TransactionCommitted,
                        EndTransactionAction::Rollback => ExecuteResponse::TransactionRolledBack,
                    },
                ),
            }
        },
    }
}

/// Whether `out` is what the dispatch of `plan` makes of the statement of
/// `ctx`, once the checks have passed.
pub open spec fn dispatched(
    coord: Coordinator,
    ctx: ExecuteContext,
    plan: Plan,
    resolved_ids: ResolvedIds,
    target_cluster: TargetCluster,
    out: Sequencing,
) -> bool {
    let before = ctx.session;
    match plan {
        Plan::EmptyQuery => acknowledged(ctx, ExecuteResponse::EmptyQuery, out),
        Plan::AlterNoop { object_type } => acknowledged(
            ctx,
            ExecuteResponse::AlteredObject(object_type),
            out,
        ),
        Plan::StartTransaction { access, isolation_level } => {
            &&& out matches Sequencing::Retired(response)
            &&& response.result == Ok::<ExecuteResponse, AdapterError>(
                ExecuteResponse::StartedTransaction,
            )
            &&& response.session.transaction == Session::started(
                before.transaction,
                coord.now,
                access,
                isolation_level,
            )
            &&& response.session.notices@ == if before.transaction is Default {
                before.notices@
            } else {
                noticed(before, AdapterNotice::ExistingTransactionInProgress)
            }
            &&& before.unchanged_but(
                response.session,
                Touched {
                    transaction: true,
                    prepared_statements: false,
                    portals: false,
                    vars: false,
                    notices: true,
                },
            )
        },
        Plan::CommitTransaction { transaction_type } => transaction_ended(
            ctx,
            EndTransactionAction::Commit,
            transaction_type,
            out,
        ),
        Plan::AbortTransaction { transaction_type } => transaction_ended(
            ctx,
            EndTransactionAction::Rollback,
            transaction_type,
            out,
        ),
        Plan::ShowCreate { row } => {
            &&& out matches Sequencing::Retired(response)
            &&& response.result matches Ok(ExecuteResponse::SendingRows(rows))
            &&& rows@ == seq![row]
            &&& response.session.transaction == Session::after_statement(before.transaction)
            &&& before.unchanged_but(
                response.session,
                Touched {
                    transaction: true,
                    prepared_statements: false,
                    portals: false,
                    vars: false,
                    notices: false,
                },
            )
        },
        Plan::CopyFrom { id, columns } => acknowledged(
            ctx,
            ExecuteResponse::CopyFrom { id, columns, extra: ctx.extra },
            out,
        ),
        Plan::Fetch { name, count, timeout } => acknowledged(
            ctx,
            ExecuteResponse::Fetch { name, count, timeout, extra: ctx.extra },
            out,
        ),
        Plan::Raise { severity } => {
            &&& out matches Sequencing::Retired(response)
            &&& response.session.notices@ == noticed(
                before,
                AdapterNotice::UserRequested { severity },
            )
            &&& answered(
                before,
                Touched {
                    transaction: false,
                    prepared_statements: false,
                    portals: false,
                    vars: false,
                    notices: true,
                },
                before.transaction,
                Ok(ExecuteResponse::Raised),
                response,
            )
        },
        Plan::Declare { name, stmt, sql } => {
            &&& out matches Sequencing::Retired(response)
            &&& response.session.portals@.dom().contains(name@)
            &&& response.session.portals@.remove(name@) == before.portals@.remove(name@)
            &&& ({
                let portal = response.session.portals@[name@];
                &&& portal.stmt == Some(stmt)
                &&& portal.parameters@.len() == 0
                &&& portal.catalog_revision == coord.catalog.transient_revision
                &&& portal.state == PortalState::NotStarted
            })
            &&& answered(
                before,
                Touched {
                    transaction: false,
                    prepared_statements: false,
                    portals: true,
                    vars: false,
                    notices: false,
                },
                before.transaction,
                Ok(ExecuteResponse::DeclaredCursor),
                response,
            )
        },
        Plan::Close { name } => if before.portals@.dom().contains(name@) {
            &&& out matches Sequencing::Retired(response)
            &&& response.session.portals@ == before.portals@.remove(name@)
            &&& answered(
                before,
                Touched {
                    transaction: false,
                    prepared_statements: false,
                    portals: true,
                    vars: false,
                    notices: false,
                },
                before.transaction,
                Ok(ExecuteResponse::ClosedCursor),
                response,
            )
        } else {
            refused(ctx, AdapterError::UnknownCursor(name), out)
        },
        Plan::Prepare { name, stmt, sql, desc } => if before.prepared_statements@.dom().contains(
            name@,
        ) {
            refused(ctx, AdapterError::PreparedStatementExists(name), out)
        } else {
            &&& out matches Sequencing::Retired(response)
            &&& response.session.prepared_statements@ == before.prepared_statements@.insert(
                name@,
                PreparedStatement {
                    stmt: Some(stmt),
                    sql,
                    desc,
                    catalog_revision: coord.catalog.transient_revision,
                    prepared_at: coord.now,
                },
            )
            &&& answered(
                before,
                Touched {
                    transaction: false,
                    prepared_statements: true,
                    portals: false,
                    vars: false,
                    notices: false,
                },
                before.transaction,
                Ok(ExecuteResponse::Prepare),
                response,
            )
        },
        Plan::Deallocate { name } => match name {
            Some(name) => if before.prepared_statements@.dom().contains(name@) {
                &&& out matches Sequencing::Retired(response)
                &&& response.session.prepared_statements@ == before.prepared_statements@.remove(
                    name@,
                )
                &&& answered(
                    before,
                    Touched {
                        transaction: false,
                        prepared_statements: true,
                        portals: false,
                        vars: false,
                        notices: false,
                    },
                    before.transaction,
                    Ok(ExecuteResponse::Deallocate { all: false }),
                    response,
                )
            } else {
                refused(ctx, AdapterError::UnknownPreparedStatement(name), out)
            },
            None => {
                &&& out matches Sequencing::Retired(response)
                &&& response.session.prepared_statements@ == Map::<
                    Seq<char>,
                    PreparedStatement,
                >::empty()
                &&& answered(
                    before,
                    Touched {
                        transaction: false,
                        prepared_statements: true,
                        portals: false,
                        vars: false,
                        notices: false,
                    },
                    before.transaction,
                    Ok(ExecuteResponse::Deallocate { all: true }),
                    response,
                )
            },
        },
        Plan::Execute { name, params } => if before.prepared_statements@.dom().contains(name@) {
            let prepared = before.prepared_statements@[name@];
            &&& out matches Sequencing::Forwarded(
                Command::Execute { portal_name, session, allowed, outer_ctx_extra },
            )
            &&& portal_name@ == Seq::<char>::empty()
            &&& allowed == ctx.allowed
            &&& outer_ctx_extra == Some(ctx.extra)
            &&& session.portals@ == before.portals@.insert(
                portal_name@,
                Portal {
                    stmt: prepared.stmt,
                    parameters: params,
                    catalog_revision: prepared.catalog_revision,
                    state: PortalState::NotStarted,
                },
            )
            &&& before.unchanged_but(
                session,
                Touched {
                    transaction: false,
                    prepared_statements: false,
                    portals: true,
                    vars: false,
                    notices: false,
                },
            )
        } else {
            refused(ctx, AdapterError::UnknownPreparedStatement(name), out)
        },
        Plan::DiscardTemp => {
            &&& out matches Sequencing::Pending(pending)
            &&& pending.ctx() == ctx
            &&& pending.plan() == plan
            &&& pending.resolved_ids() == resolved_ids
            &&& pending.target_cluster() == target_cluster
            &&& pending.request() == Request::DropTempItems
        },
        Plan::DiscardAll => if before.transaction is Started {
            &&& out matches Sequencing::Pending(pending)
            &&& pending.ctx().allowed == ctx.allowed
            &&& pending.ctx().extra == ctx.extra
            &&& pending.ctx().session.transaction is Default
            &&& before.unchanged_but(
                pending.ctx().session,
                Touched {
                    transaction: true,
                    prepared_statements: false,
                    portals: false,
                    vars: false,
                    notices: false,
                },
            )
            &&& pending.plan() == plan
            &&& pending.resolved_ids() == resolved_ids
            &&& pending.target_cluster() == target_cluster
            &&& pending.request() == Request::DropTempItems
        } else {
            &&& out matches Sequencing::Retired(response)
            &&& response.result matches Err(AdapterError::OperationProhibitsTransaction(statement))
            &&& statement@ == "DISCARD ALL"@
            &&& response.session.transaction == Session::after_failure(before.transaction)
            &&& before.unchanged_but(
                response.session,
                Touched {
                    transaction: true,
                    prepared_statements: false,
                    portals: false,
                    vars: false,
                    notices: false,
                },
            )
        },
        Plan::CreateSource => {
            &&& out matches Sequencing::Pending(pending)
            &&& pending.ctx() == ctx
            &&& pending.plan() == plan
            &&& pending.resolved_ids() == resolved_ids
            &&& pending.target_cluster() == target_cluster
            &&& pending.request() == Request::AllocateUserId
        },
        _ => match plan.kind().shape() {
            Shape::Handled => out == (Sequencing::Handle {
                ctx,
                plan,
                resolved_ids,
                source_id: None,
                target_cluster,
            }),
            Shape::Deferred => out == (Sequencing::Delegated {
                ctx,
                work: Deferred::Plan { plan, resolved_ids, target_cluster },
            }),
            _ => true,
        },
    }
}

/// A copy of a statement.
fn clone_statement(stmt: &Option<Statement>) -> (copy: Option<Statement>)
    ensures
        copy == *stmt,
{
    match stmt {
        Some(stmt) => Some(Statement { sql: stmt.sql.clone() }),
        None => None,
    }
}

/// Whether `out` is what the drop of the session's temporary objects
/// makes of the statement that waited for it: `DISCARD ALL` resets the
/// session and is answered, `DISCARD TEMP` is answered.
pub open spec fn temp_items_dropped(pending: Pending, out: Sequencing) -> bool {
    let before = pending.ctx().session;
    if pending.plan() is DiscardAll {
        &&& out matches Sequencing::Retired(response)
        &&& response.result == Ok::<ExecuteResponse, AdapterError>(ExecuteResponse::DiscardedAll)
        &&& response.session.transaction is Default
        &&& response.session.prepared_statements@ == Map::<Seq<char>, PreparedStatement>::empty()
        &&& response.session.portals@ == Map::<Seq<char>, Portal>::empty()
        &&& response.session.vars@ == Map::<Seq<char>, String>::empty()
        &&& response.session.conn_id == before.conn_id
        &&& response.session.notices == before.notices
    } else {
        acknowledged(pending.ctx(), ExecuteResponse::DiscardedTemp, out)
    }
}

/// Whether `out` is what `reply` makes of the statement that waited.
///
/// The checks come in one order: the privileges of introspection, the
/// restrictions of the cluster, the cluster to run on, the privileges of
/// the role. The first that fails answers the statement with its error and
/// the plan is not dispatched. A reply that does not answer the request
/// fails the statement.
pub open spec fn resumed(coord: Coordinator, pending: Pending, reply: Reply, out: Sequencing) -> bool {
    match (pending.request(), reply) {
        (Request::CheckIntrospectionPrivileges, Reply::Checked(Ok(()))) => {
            &&& out matches Sequencing::Pending(next)
            &&& pending.waits_for(Request::CheckClusterRestrictions, next)
        },
        (Request::CheckClusterRestrictions, Reply::Checked(Ok(()))) => {
            &&& out matches Sequencing::Pending(next)
            &&& pending.waits_for(Request::ResolveTargetCluster, next)
        },
        (
            Request::ResolveTargetCluster,
            Reply::TargetCluster { target_cluster, target_cluster_id },
        ) => {
            &&& out matches Sequencing::Pending(next)
            &&& next.ctx() == pending.ctx()
            &&& next.plan() == pending.plan()
            &&& next.resolved_ids() == pending.resolved_ids()
            &&& next.target_cluster() == target_cluster
            &&& next.request() == Request::CheckAccess { target_cluster_id }
        },
        (Request::CheckAccess { .. }, Reply::Checked(Ok(()))) => dispatched(
            coord,
            pending.ctx(),
            pending.plan(),
            pending.resolved_ids(),
            pending.target_cluster(),
            out,
        ),
        (Request::CheckIntrospectionPrivileges, Reply::Checked(Err(e))) => refused(
            pending.ctx(),
            e,
            out,
        ),
        (Request::CheckClusterRestrictions, Reply::Checked(Err(e))) => refused(
            pending.ctx(),
            e,
            out,
        ),
        (Request::CheckAccess { .. }, Reply::Checked(Err(e))) => refused(pending.ctx(), e, out),
        (Request::AllocateUserId, Reply::Allocated(Ok(id))) => out == (Sequencing::Handle {
            ctx: pending.ctx(),
            plan: pending.plan(),
            resolved_ids: pending.resolved_ids(),
            source_id: Some(id),
            target_cluster: pending.target_cluster(),
        }),
        (Request::AllocateUserId, Reply::Allocated(Err(e))) => refused(pending.ctx(), e, out),
        (Request::DropTempItems, Reply::TempItemsDropped) => temp_items_dropped(pending, out),
        _ => refused(pending.ctx(), AdapterError::UnexpectedReply, out),
    }
}

/// Whether the step `out` of a statement of kind `kind` keeps to the
/// kinds that the plan may answer with: an answer is an error or of one
/// of these kinds, and a context that is handed on has declared them.
pub open spec fn conforms(kind: PlanKind, out: Sequencing) -> bool {
    match out {
        Sequencing::Pending(pending) => declares(pending.ctx(), kind),
        Sequencing::Handle { ctx, .. } => declares(ctx, kind),
        Sequencing::Delegated { ctx, .. } => declares(ctx, kind),
        Sequencing::Forwarded(Command::Execute { allowed, .. }) => allowed matches Some(allowed)
            && allowed@ == allowed_kinds(kind),
        Sequencing::Forwarded(_) => true,
        Sequencing::Retired(response) => response.result matches Ok(r) ==> allowed_kinds(
            kind,
        ).contains(r.kind()),
    }
}

/// Whether the handler's `result` for a statement of kind `kind` is
/// answered by `response`: the result is delivered where the plan allows
/// it, and a role that was created or altered while access control does
/// not hold for the session is followed by the notice that says so.
pub open spec fn handler_answered(
    coord: Coordinator,
    ctx: ExecuteContext,
    kind: PlanKind,
    result: Result<ExecuteResponse, AdapterError>,
    response: Response,
) -> bool {
    let before = ctx.session;
    let config = coord.catalog.system_config;
    let told = (kind == PlanKind::CreateRole || kind == PlanKind::AlterRole) && result is Ok
        && !rbac_enabled(&config, &before);
    &&& response.result == ctx.delivered(result)
    &&& response.session.transaction == ExecuteContext::status_after(
        before.transaction,
        response.result,
    )
    &&& response.session.notices@ == if !told {
        before.notices@
    } else if !config.enable_ld_rbac_checks {
        noticed(before, AdapterNotice::RbacSystemDisabled)
    } else {
        noticed(before, AdapterNotice::RbacUserDisabled)
    }
    &&& before.unchanged_but(
        response.session,
        Touched {
            transaction: true,
            prepared_statements: false,
            portals: false,
            vars: false,
            notices: true,
        },
    )
}

impl Coordinator {
    /// Takes a planned statement in: declares the kinds of response that
    /// it may give, refuses it where the session's transaction has failed
    /// and the plan does not end it, and else asks for the first check.
    pub fn sequence_plan(&mut self, ctx: ExecuteContext, plan: Plan, resolved_ids: ResolvedIds) -> (out:
        Sequencing)
        requires
            !(plan is AlterSource),
            plan is CreateSources ==> resolved_ids.0@.len() == 0,
        ensures
            *final(self) == *old(self),
            conforms(plan.kind(), out),
            if ctx.session.transaction is Failed && !ends_transaction(plan) {
                refused(ctx, AdapterError::TransactionAborted, out)
            } else {
                &&& out matches Sequencing::Pending(pending)
                &&& pending.ctx().session == ctx.session
                &&& pending.ctx().extra == ctx.extra
                &&& pending.plan() == plan
                &&& pending.resolved_ids() == resolved_ids
                &&& pending.request() == Request::CheckIntrospectionPrivileges
            },
    {
        let mut ctx = ctx;
        let mut responses = ExecuteResponse::generated_from(plan.kind());
        responses.push(ExecuteResponseKind::Canceled);
        ctx.set_allowed(responses);
        let failed = match ctx.session().transaction() {
            TransactionStatus::Failed(_) => true,
            _ => false,
        };
        let ends = match &plan {
            Plan::CommitTransaction { .. } | Plan::AbortTransaction { .. } => true,
            _ => false,
        };
        if failed && !ends {
            return Sequencing::Retired(ctx.retire(Err(AdapterError::TransactionAborted)));
        }
        Sequencing::Pending(
            Pending {
                ctx,
                plan,
                resolved_ids,
                request: Request::CheckIntrospectionPrivileges,
                target_cluster: TargetCluster::Active,
            },
        )
    }

    /// Goes on with a statement that waited, now that its request is
    /// answered.
    pub fn resume(&mut self, pending: Pending, reply: Reply) -> (out: Sequencing)
        ensures
            *final(self) == *old(self),
            conforms(pending.plan().kind(), out),
            resumed(*old(self), pending, reply, out),
    {
        proof {
            use_type_invariant(&pending);
        }
        let Pending { ctx, plan, resolved_ids, request, target_cluster } = pending;
        match (request, reply) {
            (Request::CheckIntrospectionPrivileges, Reply::Checked(Ok(()))) => Sequencing::Pending(
                Pending {
                    ctx,
                    plan,
                    resolved_ids,
                    request: Request::CheckClusterRestrictions,
                    target_cluster,
                },
            ),
            (Request::CheckClusterRestrictions, Reply::Checked(Ok(()))) => Sequencing::Pending(
                Pending {
                    ctx,
                    plan,
                    resolved_ids,
                    request: Request::ResolveTargetCluster,
                    target_cluster,
                },
            ),
            (
                Request::ResolveTargetCluster,
                Reply::TargetCluster { target_cluster, target_cluster_id },
            ) => Sequencing::Pending(
                Pending {
                    ctx,
                    plan,
                    resolved_ids,
                    request: Request::CheckAccess { target_cluster_id },
                    target_cluster,
                },
            ),
            (Request::CheckAccess { .. }, Reply::Checked(Ok(()))) => self.dispatch(
                ctx,
                plan,
                resolved_ids,
                target_cluster,
            ),
            (Request::CheckIntrospectionPrivileges, Reply::Checked(Err(e))) => Sequencing::Retired(
                ctx.retire(Err(e)),
            ),
            (Request::CheckClusterRestrictions, Reply::Checked(Err(e))) => Sequencing::Retired(
                ctx.retire(Err(e)),
            ),
            (Request::CheckAccess { .. }, Reply::Checked(Err(e))) => Sequencing::Retired(
                ctx.retire(Err(e)),
            ),
            (Request::AllocateUserId, Reply::Allocated(Ok(id))) => Sequencing::Handle {
                ctx,
                plan,
                resolved_ids,
                source_id: Some(id),
                target_cluster,
            },
            (Request::AllocateUserId, Reply::Allocated(Err(e))) => Sequencing::Retired(
                ctx.retire(Err(e)),
            ),
            (Request::DropTempItems, Reply::TempItemsDropped) => {
                let mut ctx = ctx;
                match plan {
                    Plan::DiscardAll => {
                        ctx.session.reset();
                        proof {
                            lemma_allowed(PlanKind::DiscardAll, 0);
                        }
                        Sequencing::Retired(ctx.retire(Ok(ExecuteResponse::DiscardedAll)))
                    },
                    _ => {
                        proof {
                            lemma_allowed(PlanKind::DiscardTemp, 0);
                        }
                        Sequencing::Retired(ctx.retire(Ok(ExecuteResponse::DiscardedTemp)))
                    },
                }
            },
            _ => Sequencing::Retired(ctx.retire(Err(AdapterError::UnexpectedReply))),
        }
    }

    /// Answers a statement that waits with the notice that it was
    /// canceled.
    pub fn cancel(pending: Pending) -> (out: Sequencing)
        ensures
            conforms(pending.plan().kind(), out),
            acknowledged(pending.ctx(), ExecuteResponse::Canceled, out),
    {
        proof {
            use_type_invariant(&pending);
            lemma_allowed(pending.plan.kind(), 0);
        }
        let Pending { ctx, plan, resolved_ids, request, target_cluster } = pending;
        Sequencing::Retired(ctx.retire(Ok(ExecuteResponse::Canceled)))
    }

    /// Answers a statement with the result of its handler.
    pub fn handled(
        &self,
        ctx: ExecuteContext,
        kind: PlanKind,
        result: Result<ExecuteResponse, AdapterError>,
    ) -> (response: Response)
        ensures
            handler_answered(*self, ctx, kind, result, response),
            response.result is Ok ==> ctx.permits(&response.result),
    {
        let mut ctx = ctx;
        let role = match kind {
            PlanKind::CreateRole | PlanKind::AlterRole => true,
            _ => false,
        };
        if role && result.is_ok() {
            self.maybe_send_rbac_notice(&mut ctx.session);
        }
        ctx.retire(result)
    }

    /// Ends the session's transaction by `action`.
    fn sequence_end_transaction(
        ctx: ExecuteContext,
        action: EndTransactionAction,
        transaction_type: TransactionType,
    ) -> (out: Sequencing)
        requires
            declares(
                ctx,
                match action {
                    EndTransactionAction::Commit => PlanKind::CommitTransaction,
                    EndTransactionAction::Rollback => PlanKind::AbortTransaction,
                },
            ),
        ensures
            transaction_ended(ctx, action, transaction_type, out),
            conforms(PlanKind::CommitTransaction, out),
            conforms(PlanKind::AbortTransaction, out),
    {
        let mut ctx = ctx;
        proof {
            lemma_allowed(PlanKind::CommitTransaction, 0);
            lemma_allowed(PlanKind::CommitTransaction, 1);
            lemma_allowed(PlanKind::AbortTransaction, 0);
            lemma_allowed(PlanKind::AbortTransaction, 1);
            assert(allowed_kinds(PlanKind::CommitTransaction) == allowed_kinds(
                PlanKind::AbortTransaction,
            ));
        }
        if ctx.session.transaction().is_implicit() && !transaction_type.is_implicit() {
            // The client is told, and the transaction is closed all the same.
            ctx.session.add_notice(AdapterNotice::ExplicitTransactionControlInImplicitTransaction);
        }
        let status = ctx.session.clear_transaction();
        match status {
            TransactionStatus::Default => {
                let statement = match action {
                    EndTransactionAction::Commit => "COMMIT".to_owned(),
                    EndTransactionAction::Rollback => "ROLLBACK".to_owned(),
                };
                Sequencing::Retired(
                    ctx.retire(Err(AdapterError::OperationRequiresTransaction(statement))),
                )
            },
            // A transaction that has failed can only be rolled back.
            TransactionStatus::Failed(_) => Sequencing::Retired(
                ctx.retire(Ok(ExecuteResponse::TransactionRolledBack)),
            ),
            TransactionStatus::Started(txn) | TransactionStatus::InTransaction(txn) => match action {
                EndTransactionAction::Rollback => Sequencing::Retired(
                    ctx.retire(Ok(ExecuteResponse::TransactionRolledBack)),
                ),
                EndTransactionAction::Commit => match txn.ops {
                    TransactionOps::Writes(writes) => {
                        if writes.len() > 0 {
                            Sequencing::Delegated { ctx, work: Deferred::Commit { writes } }
                        } else {
                            Sequencing::Retired(
                                ctx.retire(Ok(ExecuteResponse::TransactionCommitted)),
                            )
                        }
                    },
                    _ => Sequencing::Retired(ctx.retire(Ok(ExecuteResponse::TransactionCommitted))),
                },
            },
        }
    }

    /// Dispatches a plan that has passed the checks.
    fn dispatch(
        &self,
        ctx: ExecuteContext,
        plan: Plan,
        resolved_ids: ResolvedIds,
        target_cluster: TargetCluster,
    ) -> (out: Sequencing)
        requires
            !(plan is AlterSource),
            plan is CreateSources ==> resolved_ids.0@.len() == 0,
            declares(ctx, plan.kind()),
            ctx.session.transaction is Failed ==> ends_transaction(plan),
        ensures
            dispatched(*self, ctx, plan, resolved_ids, target_cluster, out),
            conforms(plan.kind(), out),
    {
        let mut ctx = ctx;
        let ghost kind = plan.kind();
        proof {
            lemma_allowed(kind, 0);
            if ExecuteResponse::generated_from_spec(kind).len() > 1 {
                lemma_allowed(kind, 1);
            }
        }
        match plan {
            Plan::EmptyQuery => Sequencing::Retired(ctx.retire(Ok(ExecuteResponse::EmptyQuery))),
            Plan::AlterNoop { object_type } => Sequencing::Retired(
                ctx.retire(Ok(ExecuteResponse::AlteredObject(object_type))),
            ),
            Plan::StartTransaction { access, isolation_level } => {
                let idle = match ctx.session.transaction() {
                    TransactionStatus::Default => true,
                    _ => false,
                };
                if !idle {
                    ctx.session.add_notice(AdapterNotice::ExistingTransactionInProgress);
                }
                let result = ctx.session.start_transaction(self.now, access, isolation_level);
                let result = match result {
                    Ok(()) => Ok(ExecuteResponse::StartedTransaction),
                    Err(e) => Err(e),
                };
                Sequencing::Retired(ctx.retire(result))
            },
            Plan::CommitTransaction { transaction_type } => Self::sequence_end_transaction(
                ctx,
                EndTransactionAction::Commit,
                transaction_type,
            ),
            Plan::AbortTransaction { transaction_type } => Self::sequence_end_transaction(
                ctx,
                EndTransactionAction::Rollback,
                transaction_type,
            ),
            Plan::ShowCreate { row } => {
                let mut rows = Vec::new();
                rows.push(row);
                Sequencing::Retired(ctx.retire(Ok(ExecuteResponse::SendingRows(rows))))
            },
            Plan::CopyFrom { id, columns } => {
                let mut extra = ExecuteContextExtra::empty();
                std::mem::swap(&mut extra, &mut ctx.extra);
                Sequencing::Retired(ctx.retire(Ok(ExecuteResponse::CopyFrom { id, columns, extra })))
            },
            Plan::Fetch { name, count, timeout } => {
                let mut extra = ExecuteContextExtra::empty();
                std::mem::swap(&mut extra, &mut ctx.extra);
                Sequencing::Retired(
                    ctx.retire(Ok(ExecuteResponse::Fetch { name, count, timeout, extra })),
                )
            },
            Plan::Raise { severity } => {
                ctx.session.add_notice(AdapterNotice::UserRequested { severity });
                Sequencing::Retired(ctx.retire(Ok(ExecuteResponse::Raised)))
            },
            Plan::Declare { name, stmt, sql } => {
                // The cursor takes no parameters.
                let portal = Portal {
                    stmt: Some(stmt),
                    parameters: Vec::new(),
                    catalog_revision: self.catalog.transient_revision(),
                    state: PortalState::NotStarted,
                };
                let ghost portals = ctx.session.portals@;
                ctx.session.set_portal(name, portal);
                assert(ctx.session.portals@.remove(name@) =~= portals.remove(name@));
                Sequencing::Retired(ctx.retire(Ok(ExecuteResponse::DeclaredCursor)))
            },
            Plan::Close { name } => {
                if ctx.session.remove_portal(&name) {
                    Sequencing::Retired(ctx.retire(Ok(ExecuteResponse::ClosedCursor)))
                } else {
                    Sequencing::Retired(ctx.retire(Err(AdapterError::UnknownCursor(name))))
                }
            },
            Plan::Prepare { name, stmt, sql, desc } => {
                if ctx.session.get_prepared_statement_unverified(&name).is_some() {
                    Sequencing::Retired(
                        ctx.retire(Err(AdapterError::PreparedStatementExists(name))),
                    )
                } else {
                    ctx.session.set_prepared_statement(
                        name,
                        Some(stmt),
                        sql,
                        desc,
                        self.catalog.transient_revision(),
                        self.now,
                    );
                    Sequencing::Retired(ctx.retire(Ok(ExecuteResponse::Prepare)))
                }
            },
            Plan::Deallocate { name } => match name {
                Some(name) => {
                    if ctx.session.remove_prepared_statement(&name) {
                        Sequencing::Retired(
                            ctx.retire(Ok(ExecuteResponse::Deallocate { all: false })),
                        )
                    } else {
                        Sequencing::Retired(
                            ctx.retire(Err(AdapterError::UnknownPreparedStatement(name))),
                        )
                    }
                },
                None => {
                    ctx.session.remove_all_prepared_statements();
                    Sequencing::Retired(ctx.retire(Ok(ExecuteResponse::Deallocate { all: true })))
                },
            },
            Plan::Execute { name, params } => {
                let portal = match ctx.session.get_prepared_statement_unverified(&name) {
                    Some(prepared) => Some(
                        Portal {
                            stmt: clone_statement(&prepared.stmt),
                            parameters: params,
                            catalog_revision: prepared.catalog_revision,
                            state: PortalState::NotStarted,
                        },
                    ),
                    None => None,
                };
                match portal {
                    Some(portal) => {
                        let portal_name = String::new();
                        ctx.session.set_portal(portal_name.clone(), portal);
                        let (allowed, session, extra) = ctx.into_parts();
                        Sequencing::Forwarded(
                            Command::Execute {
                                portal_name,
                                session,
                                allowed,
                                outer_ctx_extra: Some(extra),
                            },
                        )
                    },
                    None => Sequencing::Retired(
                        ctx.retire(Err(AdapterError::UnknownPreparedStatement(name))),
                    ),
                }
            },
            Plan::DiscardTemp => Sequencing::Pending(
                Pending {
                    ctx,
                    plan: Plan::DiscardTemp,
                    resolved_ids,
                    request: Request::DropTempItems,
                    target_cluster,
                },
            ),
            Plan::DiscardAll => {
                let started = match ctx.session.transaction() {
                    TransactionStatus::Started(_) => true,
                    _ => false,
                };
                if started {
                    let _ = ctx.session.clear_transaction();
                    Sequencing::Pending(
                        Pending {
                            ctx,
                            plan: Plan::DiscardAll,
                            resolved_ids,
                            request: Request::DropTempItems,
                            target_cluster,
                        },
                    )
                } else {
                    Sequencing::Retired(
                        ctx.retire(
                            Err(AdapterError::OperationProhibitsTransaction("DISCARD ALL".to_owned())),
                        ),
                    )
                }
            },
            Plan::CreateSource => Sequencing::Pending(
                Pending {
                    ctx,
                    plan: Plan::CreateSource,
                    resolved_ids,
                    request: Request::AllocateUserId,
                    target_cluster,
                },
            ),
            plan => {
                match plan.kind().shape() {
                    Shape::Deferred => Sequencing::Delegated {
                        ctx,
                        work: Deferred::Plan { plan, resolved_ids, target_cluster },
                    },
                    _ => Sequencing::Handle { ctx, plan, resolved_ids, source_id: None, target_cluster },
                }
            },
        }
    }
}

} // verus!
