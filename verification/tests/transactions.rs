use sequencer::context::ExecuteContext;
use sequencer::coordinator::Coordinator;
use sequencer::catalog::{Catalog, SystemConfig};
use sequencer::error::AdapterError;
use sequencer::repr::{Datum, GlobalId};
use sequencer::response::{ExecuteContextExtra, ExecuteResponse, ExecuteResponseKind};
use sequencer::context::Response;
use sequencer::sequencer::Command;
use sequencer::session::{
    EndTransactionAction, IsolationLevel, Session, Statement, TransactionAccessMode,
    TransactionOps, TransactionStatus, WriteOp,
};
use sequencer::single_statement::{AfterCommit, AfterStatement};

fn write(id: u64) -> WriteOp {
    WriteOp { id: GlobalId::User(id), rows: vec![(vec![Some(1)], 1)] }
}

fn ops(session: &Session) -> &TransactionOps {
    match &session.transaction {
        TransactionStatus::Started(txn)
        | TransactionStatus::InTransaction(txn)
        | TransactionStatus::Failed(txn) => &txn.ops,
        TransactionStatus::Default => panic!("no transaction"),
    }
}

#[test]
fn start_updates_the_open_transaction() {
    let mut session = Session::new(1);
    session.start_transaction(5, Some(TransactionAccessMode::ReadWrite), None).unwrap();
    session.start_transaction(9, None, Some(IsolationLevel::RepeatableRead)).unwrap();
    match &session.transaction {
        TransactionStatus::Started(txn) => {
            assert_eq!(txn.started_at, 5);
            assert_eq!(txn.access, Some(TransactionAccessMode::ReadWrite));
            assert_eq!(txn.isolation_level, Some(IsolationLevel::RepeatableRead));
        }
        other => panic!("expected a started transaction, got {:?}", other),
    }
}

#[test]
fn start_makes_an_implicit_transaction_explicit() {
    let mut session = Session::new(1);
    session.start_transaction_single_stmt(3);
    assert!(session.transaction().is_implicit());
    session.start_transaction(4, None, None).unwrap();
    assert!(!session.transaction().is_implicit());
    assert!(matches!(session.transaction, TransactionStatus::InTransaction(_)));
}

#[test]
fn writes_are_appended_in_order() {
    let mut session = Session::new(1);
    session.start_transaction(5, None, None).unwrap();
    session.add_transaction_ops(TransactionOps::Writes(vec![write(1)])).unwrap();
    session.add_transaction_ops(TransactionOps::Writes(vec![write(2), write(3)])).unwrap();
    assert_eq!(ops(&session), &TransactionOps::Writes(vec![write(1), write(2), write(3)]));
}

#[test]
fn kinds_of_operation_that_disagree_are_rejected() {
    let mut session = Session::new(1);
    session.start_transaction(5, None, None).unwrap();
    session.add_transaction_ops(TransactionOps::Peeks { timestamped: true }).unwrap();
    let r = session.add_transaction_ops(TransactionOps::Writes(vec![write(1)]));
    assert_eq!(r, Err(AdapterError::ReadOnlyTransaction));
    assert_eq!(ops(&session), &TransactionOps::Peeks { timestamped: true });

    let mut session = Session::new(1);
    session.start_transaction(5, None, None).unwrap();
    session.add_transaction_ops(TransactionOps::Writes(vec![write(1)])).unwrap();
    let r = session.add_transaction_ops(TransactionOps::Peeks { timestamped: true });
    assert_eq!(r, Err(AdapterError::WriteOnlyTransaction));
    let r = session.add_transaction_ops(TransactionOps::Subscribe);
    assert_eq!(r, Err(AdapterError::WriteOnlyTransaction));
    assert_eq!(ops(&session), &TransactionOps::Writes(vec![write(1)]));

    let mut session = Session::new(1);
    session.start_transaction(5, None, None).unwrap();
    session.add_transaction_ops(TransactionOps::Subscribe).unwrap();
    let r = session.add_transaction_ops(TransactionOps::Peeks { timestamped: false });
    assert_eq!(r, Err(AdapterError::SubscribeOnlyTransaction));
}

#[test]
fn constant_queries_mix_with_writes() {
    let mut session = Session::new(1);
    session.start_transaction(5, None, None).unwrap();
    session.add_transaction_ops(TransactionOps::Peeks { timestamped: false }).unwrap();
    session.add_transaction_ops(TransactionOps::Writes(vec![write(1)])).unwrap();
    session.add_transaction_ops(TransactionOps::Peeks { timestamped: false }).unwrap();
    assert_eq!(ops(&session), &TransactionOps::Writes(vec![write(1)]));
}

#[test]
fn queries_remember_whether_one_read_at_a_timestamp() {
    let mut session = Session::new(1);
    session.start_transaction(5, None, None).unwrap();
    session.add_transaction_ops(TransactionOps::Peeks { timestamped: false }).unwrap();
    session.add_transaction_ops(TransactionOps::Peeks { timestamped: true }).unwrap();
    session.add_transaction_ops(TransactionOps::Peeks { timestamped: false }).unwrap();
    assert_eq!(ops(&session), &TransactionOps::Peeks { timestamped: true });
}

#[test]
fn failure_fails_the_open_transaction_only() {
    let mut session = Session::new(1);
    session.fail_transaction();
    assert_eq!(session.transaction, TransactionStatus::Default);
    session.start_transaction(5, None, None).unwrap();
    session.fail_transaction();
    assert!(matches!(session.transaction, TransactionStatus::Failed(_)));
    let before = session.clear_transaction();
    assert!(matches!(before, TransactionStatus::Failed(_)));
    assert_eq!(session.transaction, TransactionStatus::Default);
}

#[test]
fn retiring_counts_the_statement_or_fails_the_transaction() {
    let mut session = Session::new(1);
    session.start_transaction(5, None, None).unwrap();
    let ctx = ExecuteContext::from_parts(session, ExecuteContextExtra::empty());
    let response = ctx.retire(Ok(ExecuteResponse::StartedTransaction));
    assert!(matches!(response.session.transaction, TransactionStatus::Started(_)));
    let ctx = ExecuteContext::from_parts(response.session, ExecuteContextExtra::empty());
    let response = ctx.retire(Ok(ExecuteResponse::EmptyQuery));
    assert!(matches!(response.session.transaction, TransactionStatus::InTransaction(_)));
    let ctx = ExecuteContext::from_parts(response.session, ExecuteContextExtra::empty());
    let response = ctx.retire(Err(AdapterError::UnknownCursor("c".to_string())));
    assert!(matches!(response.session.transaction, TransactionStatus::Failed(_)));
    assert_eq!(response.result, Err(AdapterError::UnknownCursor("c".to_string())));
}

#[test]
fn context_delivers_only_declared_kinds() {
    let mut ctx = ExecuteContext::from_parts(Session::new(1), ExecuteContextExtra::empty());
    assert!(ctx.permits(&Ok(ExecuteResponse::Inserted(1))));
    ctx.set_allowed(vec![ExecuteResponseKind::Deleted, ExecuteResponseKind::Canceled]);
    assert!(!ctx.permits(&Ok(ExecuteResponse::Inserted(1))));
    assert!(ctx.permits(&Ok(ExecuteResponse::Deleted(4))));
    assert!(ctx.permits(&Ok(ExecuteResponse::Canceled)));
    assert!(ctx.permits(&Err(AdapterError::TransactionAborted)));
    let (allowed, session, _) = ctx.into_parts();
    assert_eq!(session.conn_id(), 1);
    assert_eq!(allowed.unwrap().len(), 2);
}

fn coordinator() -> Coordinator {
    Coordinator::new(
        Catalog {
            entries: Vec::new(),
            system_config: SystemConfig {
                max_result_size: 10,
                enable_rbac_checks: true,
                enable_ld_rbac_checks: true,
            },
            transient_revision: 0,
        },
        77,
    )
}

fn wrap(coord: &mut Coordinator) -> (ExecuteContext, sequencer::single_statement::AwaitingStatement) {
    let mut ctx = ExecuteContext::from_parts(Session::new(4), ExecuteContextExtra::empty());
    ctx.set_allowed(vec![ExecuteResponseKind::Inserted]);
    let params: Vec<Datum> = vec![Some(1)];
    let (wrapped, waiting) = coord.sequence_execute_single_statement_transaction(
        ctx,
        Statement { sql: "INSERT INTO t VALUES ($1)".to_string() },
        params,
    );
    assert_eq!(wrapped.stmt.sql, "INSERT INTO t VALUES ($1)");
    assert_eq!(wrapped.params, vec![Some(1)]);
    assert_eq!(wrapped.ctx.allowed, None);
    match &wrapped.ctx.session.transaction {
        TransactionStatus::InTransaction(txn) => {
            assert!(txn.implicit);
            assert_eq!(txn.started_at, 77);
        }
        other => panic!("expected the wrapping transaction, got {:?}", other),
    }
    (wrapped.ctx, waiting)
}

fn committed(session: Session, result: Result<ExecuteResponse, AdapterError>) -> Response {
    let mut session = session;
    let _ = session.clear_transaction();
    Response { result, session }
}

#[test]
fn statement_that_fails_forwards_its_own_error() {
    let mut coord = coordinator();
    let (ctx, waiting) = wrap(&mut coord);
    let answer = ctx.retire(Err(AdapterError::Eval("bad".to_string())));
    let AfterStatement::Commit { command, wrap } = waiting.statement_finished(Some(answer)) else {
        panic!("expected the commit")
    };
    let Command::Commit { action, session } = command else { panic!("expected a commit") };
    assert_eq!(action, EndTransactionAction::Commit);
    // Whatever the commit answers, the client hears of the statement's error.
    for commit in [Ok(ExecuteResponse::TransactionRolledBack), Err(AdapterError::TransactionAborted)]
    {
        let wrap = sequencer::single_statement::AwaitingCommit {
            statement: Err(AdapterError::Eval("bad".to_string())),
        };
        let mut closed = Session::new(4);
        closed.notices = session.notices.clone();
        let AfterCommit::Respond(response) = wrap.commit_finished(Some(committed(closed, commit)))
        else {
            panic!("expected an answer")
        };
        assert_eq!(response.result, Err(AdapterError::Eval("bad".to_string())));
    }
    assert_eq!(wrap.statement, Err(AdapterError::Eval("bad".to_string())));
}

#[test]
fn statement_that_succeeds_forwards_the_outcome_of_the_commit() {
    let mut coord = coordinator();
    let (ctx, waiting) = wrap(&mut coord);
    let answer = ctx.retire(Ok(ExecuteResponse::Inserted(3)));
    let AfterStatement::Commit { command, wrap } = waiting.statement_finished(Some(answer)) else {
        panic!("expected the commit")
    };
    let Command::Commit { session, .. } = command else { panic!("expected a commit") };
    let commit = committed(session, Ok(ExecuteResponse::TransactionCommitted));
    let AfterCommit::Respond(response) = wrap.commit_finished(Some(commit)) else {
        panic!("expected an answer")
    };
    assert_eq!(response.result, Ok(ExecuteResponse::TransactionCommitted));
    assert_eq!(response.session.transaction, TransactionStatus::Default);

    let (ctx, waiting) = wrap_again(&mut coord);
    let answer = ctx.retire(Ok(ExecuteResponse::Inserted(3)));
    let AfterStatement::Commit { command, wrap } = waiting.statement_finished(Some(answer)) else {
        panic!("expected the commit")
    };
    let Command::Commit { session, .. } = command else { panic!("expected a commit") };
    let commit = committed(session, Err(AdapterError::Internal("flush failed".to_string())));
    let AfterCommit::Respond(response) = wrap.commit_finished(Some(commit)) else {
        panic!("expected an answer")
    };
    assert_eq!(response.result, Err(AdapterError::Internal("flush failed".to_string())));
}

fn wrap_again(
    coord: &mut Coordinator,
) -> (ExecuteContext, sequencer::single_statement::AwaitingStatement) {
    wrap(coord)
}

#[test]
fn wrap_is_abandoned_when_the_coordinator_is_gone() {
    let mut coord = coordinator();
    let (_ctx, waiting) = wrap(&mut coord);
    assert!(matches!(waiting.statement_finished(None), AfterStatement::Abandoned));
    let wrap = sequencer::single_statement::AwaitingCommit { statement: Ok(ExecuteResponse::Raised) };
    assert!(matches!(wrap.commit_finished(None), AfterCommit::Abandoned));
}
