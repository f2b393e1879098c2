//! What holds of every statement that the sequencer takes in.

use crate::catalog::Catalog;
use crate::context::ExecuteContext;
use crate::coordinator::{all_admitted, insertable, Coordinator};
use crate::error::{AdapterError, AdapterNotice};
use crate::plan::{MirRelationExpr, Plan, PlanKind, ResolvedIds, TargetCluster};
use crate::repr::GlobalId;
use crate::response::{allowed_kinds, ExecuteResponse};
use crate::sequencer::{declares, dispatched, resumed, Reply, Request, Sequencing};
use crate::session::{PreparedStatement, Session, TransactionStatus};
use vstd::prelude::*;

verus! {

/// The number of answers that the steps deliver to the client.
pub open spec fn answers(steps: Seq<Sequencing>) -> nat
    decreases steps.len(),
{
    if steps.len() == 0 {
        0
    } else {
        answers(steps.drop_last()) + if steps.last() is Retired {
            1nat
        } else {
            0nat
        }
    }
}

/// Whether the steps can be those of one statement: a step follows only
/// on a statement that waits.
pub open spec fn one_statement(steps: Seq<Sequencing>) -> bool {
    forall|i: int| 0 <= i < steps.len() - 1 ==> #[trigger] steps[i] is Pending
}

/// A statement is answered at most once, and only by its last step.
pub proof fn lemma_answered_at_most_once(steps: Seq<Sequencing>)
    requires
        one_statement(steps),
    ensures
        answers(steps) <= 1,
        answers(steps) == 1 <==> steps.len() > 0 && steps.last() is Retired,
    decreases steps.len(),
{
    if steps.len() > 0 {
        let init = steps.drop_last();
        assert(one_statement(init)) by {
            assert forall|i: int| 0 <= i < init.len() - 1 implies #[trigger] init[i] is Pending by {
                assert(steps[i] is Pending);
            }
        }
        lemma_answered_at_most_once(init);
        if init.len() > 0 {
            assert(steps[init.len() - 1] is Pending);
            assert(init.last() is Pending);
        }
    }
}

/// A response that is delivered is of a kind that the plan may answer
/// with, whatever the handler or the routine hands in.
pub proof fn lemma_delivered_is_allowed(
    ctx: ExecuteContext,
    kind: PlanKind,
    result: Result<ExecuteResponse, AdapterError>,
)
    requires
        declares(ctx, kind),
    ensures
        ctx.delivered(result) matches Ok(response) ==> allowed_kinds(kind).contains(response.kind()),
{
}

/// `START TRANSACTION` inside a transaction that has statements succeeds,
/// leaves the transaction with its statements and tells the client once
/// that a transaction was in progress.
pub proof fn lemma_start_inside_transaction(
    coord: Coordinator,
    ctx: ExecuteContext,
    plan: Plan,
    resolved_ids: ResolvedIds,
    target_cluster: TargetCluster,
    out: Sequencing,
)
    requires
        plan is StartTransaction,
        ctx.session.transaction is InTransaction,
        dispatched(coord, ctx, plan, resolved_ids, target_cluster, out),
    ensures
        out matches Sequencing::Retired(response) && response.result == Ok::<
            ExecuteResponse,
            AdapterError,
        >(ExecuteResponse::StartedTransaction) && response.session.transaction is InTransaction
            && response.session.notices@ == ctx.session.notices@.push(
            AdapterNotice::ExistingTransactionInProgress,
        ),
{
}

/// `COMMIT` and `ROLLBACK` without a transaction are refused, and the
/// session stays without one.
pub proof fn lemma_end_without_transaction(
    coord: Coordinator,
    ctx: ExecuteContext,
    plan: Plan,
    resolved_ids: ResolvedIds,
    target_cluster: TargetCluster,
    out: Sequencing,
)
    requires
        plan is CommitTransaction || plan is AbortTransaction,
        ctx.session.transaction is Default,
        dispatched(coord, ctx, plan, resolved_ids, target_cluster, out),
    ensures
        out matches Sequencing::Retired(response) && response.result matches Err(
            AdapterError::OperationRequiresTransaction(_),
        ) && response.session.transaction is Default,
{
}

/// A transaction that was started has no statement until one is
/// answered: the answer to `START TRANSACTION` leaves it started, and any
/// other success leaves it with statements.
pub proof fn lemma_statement_counts(before: TransactionStatus, response: ExecuteResponse)
    requires
        before is Started,
    ensures
        ExecuteContext::status_after(before, Ok(response)) is Started <==> response
            is StartedTransaction,
        !(response is StartedTransaction) ==> ExecuteContext::status_after(before, Ok(response))
            is InTransaction,
{
}

/// `DISCARD ALL` in a transaction that was started and has no statement
/// succeeds once the temporary objects are dropped, and leaves the
/// session with no transaction and every variable at its default.
pub proof fn lemma_discard_all_after_start(
    coord: Coordinator,
    ctx: ExecuteContext,
    resolved_ids: ResolvedIds,
    target_cluster: TargetCluster,
    waiting: Sequencing,
    out: Sequencing,
)
    requires
        ctx.session.transaction is Started,
        dispatched(coord, ctx, Plan::DiscardAll, resolved_ids, target_cluster, waiting),
        waiting matches Sequencing::Pending(pending) ==> resumed(
            coord,
            pending,
            Reply::TempItemsDropped,
            out,
        ),
    ensures
        waiting matches Sequencing::Pending(pending) && pending.request() == Request::DropTempItems,
        out matches Sequencing::Retired(response) && response.result == Ok::<
            ExecuteResponse,
            AdapterError,
        >(ExecuteResponse::DiscardedAll) && response.session.transaction is Default
            && response.session.vars@ == Map::<Seq<char>, String>::empty(),
{
}

/// `DISCARD ALL` anywhere but in a transaction that was started and has
/// no statement is refused by its name, and nothing of the session is
/// discarded.
pub proof fn lemma_discard_all_after_statement(
    coord: Coordinator,
    ctx: ExecuteContext,
    resolved_ids: ResolvedIds,
    target_cluster: TargetCluster,
    out: Sequencing,
)
    requires
        !(ctx.session.transaction is Started),
        dispatched(coord, ctx, Plan::DiscardAll, resolved_ids, target_cluster, out),
    ensures
        out matches Sequencing::Retired(response) && (response.result matches Err(
            AdapterError::OperationProhibitsTransaction(statement),
        ) && statement@ == "DISCARD ALL"@) && response.session.vars == ctx.session.vars
            && response.session.prepared_statements == ctx.session.prepared_statements
            && response.session.portals == ctx.session.portals,
{
}

/// A name that was prepared cannot be prepared again: the second
/// statement is refused with the name, and the first stays.
pub proof fn lemma_prepare_twice(
    coord: Coordinator,
    first_ctx: ExecuteContext,
    first: Plan,
    first_out: Sequencing,
    second_ctx: ExecuteContext,
    second: Plan,
    second_out: Sequencing,
    resolved_ids: ResolvedIds,
    target_cluster: TargetCluster,
)
    requires
        first matches Plan::Prepare { name: first_name, .. } && second matches Plan::Prepare {
            name: second_name,
            ..
        } && first_name@ == second_name@,
        dispatched(coord, first_ctx, first, resolved_ids, target_cluster, first_out),
        first_out matches Sequencing::Retired(response) && second_ctx.session == response.session,
        dispatched(coord, second_ctx, second, resolved_ids, target_cluster, second_out),
    ensures
        second_out matches Sequencing::Retired(response) && (second matches Plan::Prepare {
            name,
            ..
        } && response.result == Err::<ExecuteResponse, AdapterError>(
            AdapterError::PreparedStatementExists(name),
        )) && response.session.prepared_statements == second_ctx.session.prepared_statements,
{
}

/// `DEALLOCATE ALL` succeeds in every session and leaves no prepared
/// statement.
pub proof fn lemma_deallocate_all(
    coord: Coordinator,
    ctx: ExecuteContext,
    resolved_ids: ResolvedIds,
    target_cluster: TargetCluster,
    out: Sequencing,
)
    requires
        dispatched(coord, ctx, Plan::Deallocate { name: None }, resolved_ids, target_cluster, out),
    ensures
        out matches Sequencing::Retired(response) && response.result == Ok::<
            ExecuteResponse,
            AdapterError,
        >(ExecuteResponse::Deallocate { all: true }) && response.session.prepared_statements@
            == Map::<Seq<char>, PreparedStatement>::empty(),
{
}

/// An insert of rows of which one is refused by its column asks nothing
/// of the session and of the multiplicities: it is refused in every
/// session, with or without a transaction, and nothing is buffered. Only
/// the rows themselves are asked to be constant and no wider than the
/// relation.
pub proof fn lemma_refused_insert_in_every_session(
    catalog: Catalog,
    session: Session,
    other: Session,
    id: GlobalId,
    constants: MirRelationExpr,
)
    requires
        catalog.contains(id),
        catalog.entries@[catalog.position(id)].desc matches Some(desc)
            && constants matches MirRelationExpr::Constant { rows: Ok(rows) } && !all_admitted(
            desc,
            rows.deep_view(),
        ),
        insertable(catalog, session, id, constants),
    ensures
        insertable(catalog, other, id, constants),
{
}

} // verus!
