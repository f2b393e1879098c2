use sequencer::catalog::{Catalog, SystemConfig};
use sequencer::context::{ExecuteContext, Response};
use sequencer::coordinator::Coordinator;
use sequencer::error::{AdapterError, AdapterNotice, NoticeSeverity};
use sequencer::plan::{
    ClusterId, ExecuteTimeout, FetchDirection, ObjectType, Plan, PlanKind, ResolvedIds, Shape,
    TargetCluster, TransactionType,
};
use sequencer::repr::GlobalId;
use sequencer::response::{ExecuteContextExtra, ExecuteResponse, ExecuteResponseKind};
use sequencer::sequencer::{Command, Deferred, Reply, Request, Sequencing};
use sequencer::session::{
    IsolationLevel, PortalState, Session, Statement, StatementDesc, TransactionAccessMode,
    TransactionOps, TransactionStatus, WriteOp,
};

fn coordinator() -> Coordinator {
    Coordinator::new(
        Catalog {
            entries: Vec::new(),
            system_config: SystemConfig {
                max_result_size: 1 << 20,
                enable_rbac_checks: true,
                enable_ld_rbac_checks: true,
            },
            transient_revision: 42,
        },
        5_000,
    )
}

fn context(session: Session) -> ExecuteContext {
    ExecuteContext::from_parts(session, ExecuteContextExtra { statement_id: Some(9) })
}

fn no_ids() -> ResolvedIds {
    ResolvedIds(Vec::new())
}

/// Takes the plan through the four checks, each of which passes.
fn authorized(coord: &mut Coordinator, session: Session, plan: Plan) -> Sequencing {
    let mut step = coord.sequence_plan(context(session), plan, no_ids());
    let replies = vec![
        (Request::CheckIntrospectionPrivileges, Reply::Checked(Ok(()))),
        (Request::CheckClusterRestrictions, Reply::Checked(Ok(()))),
        (
            Request::ResolveTargetCluster,
            Reply::TargetCluster {
                target_cluster: TargetCluster::Introspection,
                target_cluster_id: Some(ClusterId::System(2)),
            },
        ),
        (
            Request::CheckAccess { target_cluster_id: Some(ClusterId::System(2)) },
            Reply::Checked(Ok(())),
        ),
    ];
    for (request, reply) in replies {
        step = match step {
            Sequencing::Pending(pending) => {
                assert_eq!(pending.request(), request);
                coord.resume(pending, reply)
            }
            other => panic!("expected to wait for {:?}, got {:?}", request, other),
        };
    }
    step
}

fn retired(step: Sequencing) -> Response {
    match step {
        Sequencing::Retired(response) => response,
        other => panic!("expected an answer, got {:?}", other),
    }
}

fn statement(sql: &str) -> Statement {
    Statement { sql: sql.to_string() }
}

fn desc() -> StatementDesc {
    StatementDesc { param_types: vec![20], arity: Some(1) }
}

fn prepare(name: &str) -> Plan {
    Plan::Prepare {
        name: name.to_string(),
        stmt: statement("SELECT $1"),
        sql: "SELECT $1".to_string(),
        desc: desc(),
    }
}

#[test]
fn checks_come_in_order_and_then_the_plan_is_dispatched() {
    let mut coord = coordinator();
    let response = retired(authorized(&mut coord, Session::new(1), Plan::EmptyQuery));
    assert_eq!(response.result, Ok(ExecuteResponse::EmptyQuery));
    assert_eq!(response.session.conn_id, 1);
}

#[test]
fn first_failing_check_answers_and_nothing_is_dispatched() {
    let mut coord = coordinator();
    let mut session = Session::new(1);
    session.set_prepared_statement("s".to_string(), None, String::new(), desc(), 0, 0);
    let step = coord.sequence_plan(
        context(session),
        Plan::Deallocate { name: Some("s".to_string()) },
        no_ids(),
    );
    let pending = match step {
        Sequencing::Pending(pending) => pending,
        other => panic!("expected to wait, got {:?}", other),
    };
    let step = coord.resume(pending, Reply::Checked(Ok(())));
    let pending = match step {
        Sequencing::Pending(pending) => pending,
        other => panic!("expected to wait, got {:?}", other),
    };
    assert_eq!(pending.request(), Request::CheckClusterRestrictions);
    let refusal = AdapterError::RestrictedCluster("introspection".to_string());
    let response = retired(coord.resume(pending, Reply::Checked(Err(refusal))));
    assert_eq!(
        response.result,
        Err(AdapterError::RestrictedCluster("introspection".to_string()))
    );
    // The statement was not dispatched: the prepared statement is there.
    assert!(response.session.prepared_statements.contains(&"s".to_string()));
}

#[test]
fn access_check_is_given_the_resolved_cluster() {
    let mut coord = coordinator();
    let step = coord.sequence_plan(context(Session::new(1)), Plan::Select, no_ids());
    let Sequencing::Pending(pending) = step else { panic!("expected to wait") };
    let Sequencing::Pending(pending) = coord.resume(pending, Reply::Checked(Ok(()))) else {
        panic!("expected to wait")
    };
    let Sequencing::Pending(pending) = coord.resume(pending, Reply::Checked(Ok(()))) else {
        panic!("expected to wait")
    };
    assert_eq!(pending.request(), Request::ResolveTargetCluster);
    let reply = Reply::TargetCluster {
        target_cluster: TargetCluster::Transaction(ClusterId::User(8)),
        target_cluster_id: None,
    };
    let Sequencing::Pending(pending) = coord.resume(pending, reply) else {
        panic!("expected to wait")
    };
    assert_eq!(pending.request(), Request::CheckAccess { target_cluster_id: None });
    match coord.resume(pending, Reply::Checked(Ok(()))) {
        Sequencing::Delegated { work: Deferred::Plan { plan, target_cluster, .. }, .. } => {
            assert_eq!(plan, Plan::Select);
            assert_eq!(target_cluster, TargetCluster::Transaction(ClusterId::User(8)));
        }
        other => panic!("expected a deferred routine, got {:?}", other),
    }
}

#[test]
fn reply_that_was_not_asked_for_fails_the_statement() {
    let mut coord = coordinator();
    let step = coord.sequence_plan(context(Session::new(1)), Plan::EmptyQuery, no_ids());
    let Sequencing::Pending(pending) = step else { panic!("expected to wait") };
    let response = retired(coord.resume(pending, Reply::TempItemsDropped));
    assert_eq!(response.result, Err(AdapterError::UnexpectedReply));
}

#[test]
fn statement_in_failed_transaction_is_refused() {
    let mut coord = coordinator();
    let mut session = Session::new(1);
    session.start_transaction(1, None, None).unwrap();
    session.fail_transaction();
    let response =
        retired(coord.sequence_plan(context(session), Plan::EmptyQuery, no_ids()));
    assert_eq!(response.result, Err(AdapterError::TransactionAborted));
    assert!(matches!(response.session.transaction, TransactionStatus::Failed(_)));
}

#[test]
fn commit_of_failed_transaction_rolls_back() {
    let mut coord = coordinator();
    let mut session = Session::new(1);
    session.start_transaction(1, None, None).unwrap();
    session.fail_transaction();
    let plan = Plan::CommitTransaction { transaction_type: TransactionType::Explicit };
    let response = retired(authorized(&mut coord, session, plan));
    assert_eq!(response.result, Ok(ExecuteResponse::TransactionRolledBack));
    assert_eq!(response.session.transaction, TransactionStatus::Default);
}

#[test]
fn cancellation_answers_a_waiting_statement() {
    let mut coord = coordinator();
    let step = coord.sequence_plan(context(Session::new(1)), Plan::CreateTable, no_ids());
    let Sequencing::Pending(pending) = step else { panic!("expected to wait") };
    let response = retired(Coordinator::cancel(pending));
    assert_eq!(response.result, Ok(ExecuteResponse::Canceled));
}

#[test]
fn handled_plans_are_handed_to_their_handler() {
    let mut coord = coordinator();
    match authorized(&mut coord, Session::new(3), Plan::CreateDatabase) {
        Sequencing::Handle { ctx, plan, source_id, target_cluster, .. } => {
            assert_eq!(plan, Plan::CreateDatabase);
            assert_eq!(source_id, None);
            assert_eq!(target_cluster, TargetCluster::Introspection);
            assert_eq!(
                ctx.allowed,
                Some(vec![ExecuteResponseKind::CreatedDatabase, ExecuteResponseKind::Canceled])
            );
            let response =
                coord.handled(ctx, PlanKind::CreateDatabase, Ok(ExecuteResponse::CreatedDatabase));
            assert_eq!(response.result, Ok(ExecuteResponse::CreatedDatabase));
        }
        other => panic!("expected a handler, got {:?}", other),
    }
}

#[test]
fn response_that_the_plan_does_not_allow_is_not_delivered() {
    let mut coord = coordinator();
    let Sequencing::Handle { ctx, .. } = authorized(&mut coord, Session::new(3), Plan::CreateTable)
    else {
        panic!("expected a handler")
    };
    let response = coord.handled(ctx, PlanKind::CreateTable, Ok(ExecuteResponse::CreatedView));
    assert_eq!(response.result, Err(AdapterError::UnexpectedResponse));
}

#[test]
fn handler_error_is_delivered_as_it_is() {
    let mut coord = coordinator();
    let Sequencing::Handle { ctx, .. } = authorized(&mut coord, Session::new(3), Plan::DropObjects)
    else {
        panic!("expected a handler")
    };
    let response = coord.handled(
        ctx,
        PlanKind::DropObjects,
        Err(AdapterError::Unauthorized("owner".to_string())),
    );
    assert_eq!(response.result, Err(AdapterError::Unauthorized("owner".to_string())));
}

#[test]
fn create_source_allocates_an_identifier_first() {
    let mut coord = coordinator();
    let Sequencing::Pending(pending) = authorized(&mut coord, Session::new(3), Plan::CreateSource)
    else {
        panic!("expected to wait")
    };
    assert_eq!(pending.request(), Request::AllocateUserId);
    match coord.resume(pending, Reply::Allocated(Ok(GlobalId::User(77)))) {
        Sequencing::Handle { plan, source_id, .. } => {
            assert_eq!(plan, Plan::CreateSource);
            assert_eq!(source_id, Some(GlobalId::User(77)));
        }
        other => panic!("expected a handler, got {:?}", other),
    }
}

#[test]
fn create_source_without_an_identifier_fails() {
    let mut coord = coordinator();
    let Sequencing::Pending(pending) = authorized(&mut coord, Session::new(3), Plan::CreateSource)
    else {
        panic!("expected to wait")
    };
    let error = AdapterError::Internal("no identifiers left".to_string());
    let response = retired(coord.resume(pending, Reply::Allocated(Err(error))));
    assert_eq!(response.result, Err(AdapterError::Internal("no identifiers left".to_string())));
}

#[test]
fn every_deferred_kind_is_delegated() {
    let plans = vec![
        Plan::CreateConnection,
        Plan::CreateSink,
        Plan::Select,
        Plan::ShowColumns,
        Plan::ExplainPlan,
        Plan::ExplainTimestamp,
        Plan::ReadThenWrite,
        Plan::ValidateConnection { id: GlobalId::User(1) },
    ];
    for plan in plans {
        assert_eq!(plan.kind().shape(), Shape::Deferred);
        let mut coord = coordinator();
        match authorized(&mut coord, Session::new(3), plan) {
            Sequencing::Delegated { work: Deferred::Plan { .. }, .. } => {}
            other => panic!("expected a deferred routine, got {:?}", other),
        }
    }
}

#[test]
fn alter_noop_succeeds() {
    let mut coord = coordinator();
    let plan = Plan::AlterNoop { object_type: ObjectType::Index };
    let response = retired(authorized(&mut coord, Session::new(1), plan));
    assert_eq!(response.result, Ok(ExecuteResponse::AlteredObject(ObjectType::Index)));
}

#[test]
fn show_create_sends_its_row() {
    let mut coord = coordinator();
    let plan = Plan::ShowCreate { row: vec![Some(4), None] };
    let response = retired(authorized(&mut coord, Session::new(1), plan));
    assert_eq!(response.result, Ok(ExecuteResponse::SendingRows(vec![vec![Some(4), None]])));
}

#[test]
fn fetch_and_copy_from_take_the_context_extra_along() {
    let mut coord = coordinator();
    let plan = Plan::Fetch {
        name: "c".to_string(),
        count: Some(FetchDirection::ForwardCount(5)),
        timeout: ExecuteTimeout::WaitOnce,
    };
    let response = retired(authorized(&mut coord, Session::new(1), plan));
    assert_eq!(
        response.result,
        Ok(ExecuteResponse::Fetch {
            name: "c".to_string(),
            count: Some(FetchDirection::ForwardCount(5)),
            timeout: ExecuteTimeout::WaitOnce,
            extra: ExecuteContextExtra { statement_id: Some(9) },
        })
    );
    let plan = Plan::CopyFrom { id: GlobalId::User(3), columns: vec![0, 2] };
    let response = retired(authorized(&mut coord, Session::new(1), plan));
    assert_eq!(
        response.result,
        Ok(ExecuteResponse::CopyFrom {
            id: GlobalId::User(3),
            columns: vec![0, 2],
            extra: ExecuteContextExtra { statement_id: Some(9) },
        })
    );
}

#[test]
fn raise_queues_the_notice() {
    let mut coord = coordinator();
    let plan = Plan::Raise { severity: NoticeSeverity::Warning };
    let response = retired(authorized(&mut coord, Session::new(1), plan));
    assert_eq!(response.result, Ok(ExecuteResponse::Raised));
    assert_eq!(
        response.session.notices,
        vec![AdapterNotice::UserRequested { severity: NoticeSeverity::Warning }]
    );
}

#[test]
fn prepare_registers_the_statement() {
    let mut coord = coordinator();
    let response = retired(authorized(&mut coord, Session::new(1), prepare("q")));
    assert_eq!(response.result, Ok(ExecuteResponse::Prepare));
    let prepared = response.session.get_prepared_statement_unverified(&"q".to_string()).unwrap();
    assert_eq!(prepared.stmt, Some(statement("SELECT $1")));
    assert_eq!(prepared.catalog_revision, 42);
    assert_eq!(prepared.prepared_at, 5_000);
}

#[test]
fn prepare_twice_collides() {
    let mut coord = coordinator();
    let first = retired(authorized(&mut coord, Session::new(1), prepare("q")));
    assert_eq!(first.result, Ok(ExecuteResponse::Prepare));
    let second = retired(authorized(&mut coord, first.session, prepare("q")));
    assert_eq!(second.result, Err(AdapterError::PreparedStatementExists("q".to_string())));
    assert_eq!(second.session.prepared_statements.len(), 1);
}

#[test]
fn prepare_after_deallocate_succeeds() {
    let mut coord = coordinator();
    let first = retired(authorized(&mut coord, Session::new(1), prepare("q")));
    let plan = Plan::Deallocate { name: Some("q".to_string()) };
    let gone = retired(authorized(&mut coord, first.session, plan));
    assert_eq!(gone.result, Ok(ExecuteResponse::Deallocate { all: false }));
    let again = retired(authorized(&mut coord, gone.session, prepare("q")));
    assert_eq!(again.result, Ok(ExecuteResponse::Prepare));
}

#[test]
fn deallocate_unknown_name_is_an_error_of_that_name() {
    let mut coord = coordinator();
    let plan = Plan::Deallocate { name: Some("nope".to_string()) };
    let response = retired(authorized(&mut coord, Session::new(1), plan));
    assert_eq!(response.result, Err(AdapterError::UnknownPreparedStatement("nope".to_string())));
}

#[test]
fn deallocate_all_removes_every_statement_and_always_succeeds() {
    let mut coord = coordinator();
    let empty = retired(authorized(&mut coord, Session::new(1), Plan::Deallocate { name: None }));
    assert_eq!(empty.result, Ok(ExecuteResponse::Deallocate { all: true }));
    let one = retired(authorized(&mut coord, empty.session, prepare("a")));
    let two = retired(authorized(&mut coord, one.session, prepare("b")));
    assert_eq!(two.session.prepared_statements.len(), 2);
    let all = retired(authorized(&mut coord, two.session, Plan::Deallocate { name: None }));
    assert_eq!(all.result, Ok(ExecuteResponse::Deallocate { all: true }));
    assert_eq!(all.session.prepared_statements.len(), 0);
}

#[test]
fn close_unknown_cursor_is_an_error_of_that_name() {
    let mut coord = coordinator();
    let plan = Plan::Close { name: "cur".to_string() };
    let response = retired(authorized(&mut coord, Session::new(1), plan));
    assert_eq!(response.result, Err(AdapterError::UnknownCursor("cur".to_string())));
}

#[test]
fn execute_opens_a_cursor_and_goes_on_as_a_message() {
    let mut coord = coordinator();
    let prepared = retired(authorized(&mut coord, Session::new(1), prepare("q")));
    let plan = Plan::Execute { name: "q".to_string(), params: vec![Some(5)] };
    match authorized(&mut coord, prepared.session, plan) {
        Sequencing::Forwarded(Command::Execute {
            portal_name,
            session,
            allowed,
            outer_ctx_extra,
        }) => {
            let portal = session.portals.get(&portal_name).expect("the cursor is open");
            assert_eq!(portal.stmt, Some(statement("SELECT $1")));
            assert_eq!(portal.parameters, vec![Some(5)]);
            assert_eq!(portal.catalog_revision, 42);
            assert_eq!(portal.state, PortalState::NotStarted);
            assert_eq!(outer_ctx_extra, Some(ExecuteContextExtra { statement_id: Some(9) }));
            let allowed = allowed.expect("the kinds are declared");
            assert!(allowed.contains(&ExecuteResponseKind::Inserted));
            assert!(allowed.contains(&ExecuteResponseKind::Canceled));
        }
        other => panic!("expected a message, got {:?}", other),
    }
}

#[test]
fn execute_unknown_statement_is_an_error_of_that_name() {
    let mut coord = coordinator();
    let plan = Plan::Execute { name: "q".to_string(), params: Vec::new() };
    let response = retired(authorized(&mut coord, Session::new(1), plan));
    assert_eq!(response.result, Err(AdapterError::UnknownPreparedStatement("q".to_string())));
}

#[test]
fn close_closes_an_open_cursor() {
    let mut coord = coordinator();
    let prepared = retired(authorized(&mut coord, Session::new(1), prepare("q")));
    let plan = Plan::Execute { name: "q".to_string(), params: Vec::new() };
    let Sequencing::Forwarded(Command::Execute { portal_name, session, .. }) =
        authorized(&mut coord, prepared.session, plan)
    else {
        panic!("expected a message")
    };
    let response = retired(authorized(&mut coord, session, Plan::Close { name: portal_name }));
    assert_eq!(response.result, Ok(ExecuteResponse::ClosedCursor));
    assert_eq!(response.session.portals.len(), 0);
}

#[test]
fn start_transaction_records_mode_and_level() {
    let mut coord = coordinator();
    let plan = Plan::StartTransaction {
        access: Some(TransactionAccessMode::ReadOnly),
        isolation_level: Some(IsolationLevel::Serializable),
    };
    let response = retired(authorized(&mut coord, Session::new(1), plan));
    assert_eq!(response.result, Ok(ExecuteResponse::StartedTransaction));
    assert!(response.session.notices.is_empty());
    match response.session.transaction {
        TransactionStatus::Started(txn) => {
            assert_eq!(txn.started_at, 5_000);
            assert_eq!(txn.access, Some(TransactionAccessMode::ReadOnly));
            assert_eq!(txn.isolation_level, Some(IsolationLevel::Serializable));
            assert!(!txn.implicit);
            assert_eq!(txn.ops, TransactionOps::Empty);
        }
        other => panic!("expected a started transaction, got {:?}", other),
    }
}

#[test]
fn start_transaction_inside_a_transaction_gives_one_notice() {
    let mut coord = coordinator();
    let mut session = Session::new(1);
    session.start_transaction(1, None, None).unwrap();
    session.note_statement();
    assert!(matches!(session.transaction, TransactionStatus::InTransaction(_)));
    let plan = Plan::StartTransaction { access: None, isolation_level: None };
    let response = retired(authorized(&mut coord, session, plan));
    assert_eq!(response.result, Ok(ExecuteResponse::StartedTransaction));
    assert_eq!(response.session.notices, vec![AdapterNotice::ExistingTransactionInProgress]);
    match response.session.transaction {
        TransactionStatus::InTransaction(txn) => assert_eq!(txn.started_at, 1),
        other => panic!("expected the transaction to go on, got {:?}", other),
    }
}

#[test]
fn commit_without_transaction_is_rejected() {
    let mut coord = coordinator();
    let plan = Plan::CommitTransaction { transaction_type: TransactionType::Explicit };
    let response = retired(authorized(&mut coord, Session::new(1), plan));
    assert_eq!(
        response.result,
        Err(AdapterError::OperationRequiresTransaction("COMMIT".to_string()))
    );
    assert_eq!(response.session.transaction, TransactionStatus::Default);
    let plan = Plan::AbortTransaction { transaction_type: TransactionType::Explicit };
    let response = retired(authorized(&mut coord, response.session, plan));
    assert_eq!(
        response.result,
        Err(AdapterError::OperationRequiresTransaction("ROLLBACK".to_string()))
    );
}

#[test]
fn commit_without_writes_commits_at_once() {
    let mut coord = coordinator();
    let mut session = Session::new(1);
    session.start_transaction(1, None, None).unwrap();
    let plan = Plan::CommitTransaction { transaction_type: TransactionType::Explicit };
    let response = retired(authorized(&mut coord, session, plan));
    assert_eq!(response.result, Ok(ExecuteResponse::TransactionCommitted));
    assert_eq!(response.session.transaction, TransactionStatus::Default);
    assert!(response.session.notices.is_empty());
}

#[test]
fn commit_with_writes_hands_them_to_the_flush() {
    let mut coord = coordinator();
    let mut session = Session::new(1);
    session.start_transaction(1, None, None).unwrap();
    let write = || WriteOp { id: GlobalId::User(5), rows: vec![(vec![Some(1)], 1)] };
    session.add_transaction_ops(TransactionOps::Writes(vec![write()])).unwrap();
    let plan = Plan::CommitTransaction { transaction_type: TransactionType::Explicit };
    match authorized(&mut coord, session, plan) {
        Sequencing::Delegated { ctx, work: Deferred::Commit { writes } } => {
            assert_eq!(writes, vec![write()]);
            assert_eq!(ctx.session.transaction, TransactionStatus::Default);
            let response = ctx.retire(Ok(ExecuteResponse::TransactionCommitted));
            assert_eq!(response.result, Ok(ExecuteResponse::TransactionCommitted));
        }
        other => panic!("expected the flush, got {:?}", other),
    }
}

#[test]
fn rollback_drops_the_writes() {
    let mut coord = coordinator();
    let mut session = Session::new(1);
    session.start_transaction(1, None, None).unwrap();
    let write = WriteOp { id: GlobalId::User(5), rows: vec![(vec![Some(1)], 1)] };
    session.add_transaction_ops(TransactionOps::Writes(vec![write])).unwrap();
    let plan = Plan::AbortTransaction { transaction_type: TransactionType::Explicit };
    let response = retired(authorized(&mut coord, session, plan));
    assert_eq!(response.result, Ok(ExecuteResponse::TransactionRolledBack));
    assert_eq!(response.session.transaction, TransactionStatus::Default);
}

#[test]
fn explicit_commit_of_implicit_transaction_gives_a_notice() {
    let mut coord = coordinator();
    let mut session = Session::new(1);
    session.start_transaction_single_stmt(1);
    let plan = Plan::CommitTransaction { transaction_type: TransactionType::Explicit };
    let response = retired(authorized(&mut coord, session, plan));
    assert_eq!(response.result, Ok(ExecuteResponse::TransactionCommitted));
    assert_eq!(
        response.session.notices,
        vec![AdapterNotice::ExplicitTransactionControlInImplicitTransaction]
    );
    assert_eq!(response.session.transaction, TransactionStatus::Default);

    let mut session = Session::new(1);
    session.start_transaction_single_stmt(1);
    let plan = Plan::CommitTransaction { transaction_type: TransactionType::Implicit };
    let response = retired(authorized(&mut coord, session, plan));
    assert!(response.session.notices.is_empty());
}

#[test]
fn discard_all_right_after_start_resets_the_session() {
    let mut coord = coordinator();
    let mut session = Session::new(1);
    session.set_var("cluster".to_string(), "prod".to_string());
    session.set_prepared_statement("s".to_string(), None, String::new(), desc(), 0, 0);
    let start = Plan::StartTransaction { access: None, isolation_level: None };
    let started = retired(authorized(&mut coord, session, start));
    assert!(matches!(started.session.transaction, TransactionStatus::Started(_)));
    let Sequencing::Pending(pending) = authorized(&mut coord, started.session, Plan::DiscardAll)
    else {
        panic!("expected to wait")
    };
    assert_eq!(pending.request(), Request::DropTempItems);
    let response = retired(coord.resume(pending, Reply::TempItemsDropped));
    assert_eq!(response.result, Ok(ExecuteResponse::DiscardedAll));
    assert_eq!(response.session.vars.len(), 0);
    assert_eq!(response.session.prepared_statements.len(), 0);
    assert_eq!(response.session.transaction, TransactionStatus::Default);
}

#[test]
fn discard_all_after_a_statement_is_prohibited() {
    let mut coord = coordinator();
    let mut session = Session::new(1);
    session.set_var("cluster".to_string(), "prod".to_string());
    let start = Plan::StartTransaction { access: None, isolation_level: None };
    let started = retired(authorized(&mut coord, session, start));
    let ran = retired(authorized(&mut coord, started.session, Plan::EmptyQuery));
    assert!(matches!(ran.session.transaction, TransactionStatus::InTransaction(_)));
    let response = retired(authorized(&mut coord, ran.session, Plan::DiscardAll));
    assert_eq!(
        response.result,
        Err(AdapterError::OperationProhibitsTransaction("DISCARD ALL".to_string()))
    );
    assert_eq!(response.session.vars.get(&"cluster".to_string()), Some(&"prod".to_string()));
    assert!(matches!(response.session.transaction, TransactionStatus::Failed(_)));
}

#[test]
fn discard_all_without_transaction_is_prohibited() {
    let mut coord = coordinator();
    let response = retired(authorized(&mut coord, Session::new(1), Plan::DiscardAll));
    assert_eq!(
        response.result,
        Err(AdapterError::OperationProhibitsTransaction("DISCARD ALL".to_string()))
    );
}

#[test]
fn discard_temp_waits_for_the_drop() {
    let mut coord = coordinator();
    let Sequencing::Pending(pending) = authorized(&mut coord, Session::new(1), Plan::DiscardTemp)
    else {
        panic!("expected to wait")
    };
    assert_eq!(pending.request(), Request::DropTempItems);
    let response = retired(coord.resume(pending, Reply::TempItemsDropped));
    assert_eq!(response.result, Ok(ExecuteResponse::DiscardedTemp));
}

#[test]
fn role_changes_are_followed_by_the_notice_that_access_control_is_off() {
    let mut coord = coordinator();
    coord.catalog.system_config.enable_ld_rbac_checks = false;
    let Sequencing::Handle { ctx, .. } = authorized(&mut coord, Session::new(1), Plan::CreateRole)
    else {
        panic!("expected a handler")
    };
    let response = coord.handled(ctx, PlanKind::CreateRole, Ok(ExecuteResponse::CreatedRole));
    assert_eq!(response.session.notices, vec![AdapterNotice::RbacSystemDisabled]);

    let mut coord = coordinator();
    coord.catalog.system_config.enable_rbac_checks = false;
    let Sequencing::Handle { ctx, .. } = authorized(&mut coord, Session::new(1), Plan::AlterRole)
    else {
        panic!("expected a handler")
    };
    let response = coord.handled(ctx, PlanKind::AlterRole, Ok(ExecuteResponse::AlteredRole));
    assert_eq!(response.session.notices, vec![AdapterNotice::RbacUserDisabled]);

    // A failed change is followed by nothing, and so is any other plan.
    let mut coord = coordinator();
    coord.catalog.system_config.enable_rbac_checks = false;
    let Sequencing::Handle { ctx, .. } = authorized(&mut coord, Session::new(1), Plan::AlterRole)
    else {
        panic!("expected a handler")
    };
    let refusal = AdapterError::Unauthorized("role".to_string());
    let response = coord.handled(ctx, PlanKind::AlterRole, Err(refusal));
    assert!(response.session.notices.is_empty());
}

#[test]
fn every_plan_kind_allows_cancellation_and_its_own_answers() {
    let kinds = vec![
        (PlanKind::Insert, ExecuteResponseKind::Inserted),
        (PlanKind::Insert, ExecuteResponseKind::SendingRows),
        (PlanKind::ReadThenWrite, ExecuteResponseKind::Updated),
        (PlanKind::CommitTransaction, ExecuteResponseKind::TransactionRolledBack),
        (PlanKind::DiscardAll, ExecuteResponseKind::DiscardedAll),
        (PlanKind::Subscribe, ExecuteResponseKind::Subscribing),
    ];
    for (plan, response) in kinds {
        let allowed = ExecuteResponse::generated_from(plan);
        assert!(allowed.contains(&response));
        assert!(!allowed.contains(&ExecuteResponseKind::Canceled));
    }
}

#[test]
fn declare_opens_a_cursor_under_its_name() {
    let mut coord = coordinator();
    let plan = Plan::Declare {
        name: "c".to_string(),
        stmt: statement("SELECT 1"),
        sql: "SELECT 1".to_string(),
    };
    assert_eq!(plan.kind().shape(), Shape::Local);
    let response = retired(authorized(&mut coord, Session::new(1), plan));
    assert_eq!(response.result, Ok(ExecuteResponse::DeclaredCursor));
    let portal = response.session.portals.get(&"c".to_string()).expect("the cursor is open");
    assert_eq!(portal.stmt, Some(statement("SELECT 1")));
    assert!(portal.parameters.is_empty());
    assert_eq!(portal.catalog_revision, 42);
    let closed = retired(authorized(
        &mut coord,
        response.session,
        Plan::Close { name: "c".to_string() },
    ));
    assert_eq!(closed.result, Ok(ExecuteResponse::ClosedCursor));
}
