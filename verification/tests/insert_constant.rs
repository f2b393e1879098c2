use sequencer::catalog::{Catalog, CatalogEntry, SystemConfig};
use sequencer::consolidation::magnitude_fits;
use sequencer::coordinator::{find_violation, rows_fit, Coordinator};
use sequencer::error::{AdapterError, AdapterNotice, CatalogError};
use sequencer::plan::MirRelationExpr;
use sequencer::repr::{ColumnDesc, ColumnType, GlobalId, NotNullViolation, RelationDesc};
use sequencer::response::ExecuteResponse;
use sequencer::session::{Session, TransactionOps, TransactionStatus};

fn column(name: &str, nullable: bool) -> ColumnDesc {
    ColumnDesc { name: name.to_string(), typ: ColumnType { nullable } }
}

fn desc() -> RelationDesc {
    RelationDesc { columns: vec![column("id", false), column("note", true), column("k", false)] }
}

fn catalog() -> Catalog {
    Catalog {
        entries: vec![
            CatalogEntry { id: GlobalId::User(1), desc: Some(desc()) },
            CatalogEntry { id: GlobalId::User(2), desc: None },
            // A second entry under an identifier that is taken does not count.
            CatalogEntry { id: GlobalId::User(1), desc: None },
        ],
        system_config: SystemConfig {
            max_result_size: 100,
            enable_rbac_checks: false,
            enable_ld_rbac_checks: true,
        },
        transient_revision: 1,
    }
}

fn session() -> Session {
    let mut session = Session::new(1);
    session.start_transaction_single_stmt(10);
    session
}

fn no_ops(session: &Session) -> bool {
    matches!(
        &session.transaction,
        TransactionStatus::InTransaction(txn) if txn.ops == TransactionOps::Empty
    )
}

#[test]
fn rows_that_meet_the_constraints_are_buffered() {
    let mut session = session();
    let rows = vec![(vec![Some(1), None, Some(3)], 1), (vec![Some(2), Some(5), Some(6)], 2)];
    let constants = MirRelationExpr::Constant { rows: Ok(rows.clone()) };
    let r = Coordinator::insert_constant(&catalog(), &mut session, GlobalId::User(1), constants);
    assert_eq!(r, Ok(ExecuteResponse::Inserted(3)));
    match &session.transaction {
        TransactionStatus::InTransaction(txn) => match &txn.ops {
            TransactionOps::Writes(writes) => {
                assert_eq!(writes.len(), 1);
                assert_eq!(writes[0].id, GlobalId::User(1));
                assert_eq!(writes[0].rows, rows);
            }
            other => panic!("expected writes, got {:?}", other),
        },
        other => panic!("expected a transaction, got {:?}", other),
    }
}

#[test]
fn null_in_a_column_that_refuses_it_names_the_column() {
    let mut session = session();
    let rows = vec![(vec![Some(1), None, Some(3)], 1), (vec![Some(2), None, None], 1)];
    let constants = MirRelationExpr::Constant { rows: Ok(rows) };
    let r = Coordinator::insert_constant(&catalog(), &mut session, GlobalId::User(1), constants);
    assert_eq!(
        r,
        Err(AdapterError::ConstraintViolation(NotNullViolation { column: "k".to_string() }))
    );
    // No row of the statement is buffered, not even the first, which was fine.
    assert!(no_ops(&session));
}

#[test]
fn first_violation_in_row_order_is_reported() {
    let mut session = session();
    let rows = vec![(vec![Some(1), None, None], 1), (vec![None, None, None], 1)];
    let constants = MirRelationExpr::Constant { rows: Ok(rows) };
    let r = Coordinator::insert_constant(&catalog(), &mut session, GlobalId::User(1), constants);
    assert_eq!(
        r,
        Err(AdapterError::ConstraintViolation(NotNullViolation { column: "k".to_string() }))
    );
    let rows = vec![(vec![None, None, None], 1)];
    let constants = MirRelationExpr::Constant { rows: Ok(rows) };
    let r = Coordinator::insert_constant(&catalog(), &mut session, GlobalId::User(1), constants);
    assert_eq!(
        r,
        Err(AdapterError::ConstraintViolation(NotNullViolation { column: "id".to_string() }))
    );
}

#[test]
fn relation_that_is_gone_is_unknown() {
    let mut session = session();
    let constants = MirRelationExpr::Constant { rows: Ok(Vec::new()) };
    let r = Coordinator::insert_constant(&catalog(), &mut session, GlobalId::User(9), constants);
    assert_eq!(r, Err(AdapterError::SqlCatalog(CatalogError::UnknownItem(GlobalId::User(9)))));
    assert!(no_ops(&session));
}

#[test]
fn relation_that_is_gone_is_unknown_whatever_the_rows_and_the_session() {
    // No transaction is open and the rows are no constant.
    let mut session = Session::new(1);
    assert!(Coordinator::can_insert_constant(
        &catalog(),
        &session,
        GlobalId::User(9),
        &MirRelationExpr::Query
    ));
    let r = Coordinator::insert_constant(
        &catalog(),
        &mut session,
        GlobalId::User(9),
        MirRelationExpr::Query,
    );
    assert_eq!(r, Err(AdapterError::SqlCatalog(CatalogError::UnknownItem(GlobalId::User(9)))));
    assert_eq!(session.transaction, TransactionStatus::Default);
    let r = Coordinator::insert_constant(
        &catalog(),
        &mut session,
        GlobalId::User(2),
        MirRelationExpr::Query,
    );
    assert_eq!(
        r,
        Err(AdapterError::SqlCatalog(CatalogError::InvalidDependency(GlobalId::User(2))))
    );
}

#[test]
fn constraint_is_held_before_the_session_is_looked_at() {
    // No transaction is open: a refused datum fails the statement all the
    // same, and nothing is buffered.
    let mut session = Session::new(1);
    let rows = vec![(vec![Some(1), None, Some(3)], i64::MAX), (vec![Some(2), None, None], i64::MAX)];
    let constants = MirRelationExpr::Constant { rows: Ok(rows) };
    assert!(Coordinator::can_insert_constant(&catalog(), &session, GlobalId::User(1), &constants));
    let r = Coordinator::insert_constant(&catalog(), &mut session, GlobalId::User(1), constants);
    assert_eq!(
        r,
        Err(AdapterError::ConstraintViolation(NotNullViolation { column: "k".to_string() }))
    );
    assert_eq!(session.transaction, TransactionStatus::Default);
}

#[test]
fn inserts_that_cannot_be_made_are_told_apart() {
    let open = session();
    let id = GlobalId::User(1);
    assert!(!Coordinator::can_insert_constant(&catalog(), &open, id, &MirRelationExpr::Query));
    // A row wider than the relation.
    let wide = MirRelationExpr::Constant {
        rows: Ok(vec![(vec![Some(1), None, Some(3), None], 1)]),
    };
    assert!(!Coordinator::can_insert_constant(&catalog(), &open, id, &wide));
    // Rows that would be buffered need a transaction and counts that fit.
    let fine = MirRelationExpr::Constant { rows: Ok(vec![(vec![Some(1), None, Some(3)], 1)]) };
    assert!(Coordinator::can_insert_constant(&catalog(), &open, id, &fine));
    assert!(!Coordinator::can_insert_constant(&catalog(), &Session::new(1), id, &fine));
    let many = MirRelationExpr::Constant {
        rows: Ok(vec![(vec![Some(1)], i64::MAX), (vec![Some(1)], 1)]),
    };
    assert!(!Coordinator::can_insert_constant(&catalog(), &open, id, &many));
    let failed = MirRelationExpr::Constant { rows: Err("bad".to_string()) };
    assert!(Coordinator::can_insert_constant(&catalog(), &Session::new(1), id, &failed));
    assert!(rows_fit(&desc(), &vec![(vec![Some(1)], 1), (vec![], 1)]));
    assert!(!rows_fit(&desc(), &vec![(vec![Some(1)], 1), (vec![None, None, None, None], 1)]));
    assert_eq!(find_violation(&desc(), &vec![(vec![Some(1), None, Some(1)], 1)]), None);
    assert_eq!(
        find_violation(&desc(), &vec![(vec![Some(1), None], 1), (vec![None], 1)]),
        Some(NotNullViolation { column: "id".to_string() })
    );
}

#[test]
fn object_without_columns_cannot_be_inserted_into() {
    let mut session = session();
    let constants = MirRelationExpr::Constant { rows: Ok(Vec::new()) };
    let r = Coordinator::insert_constant(&catalog(), &mut session, GlobalId::User(2), constants);
    assert_eq!(
        r,
        Err(AdapterError::SqlCatalog(CatalogError::InvalidDependency(GlobalId::User(2))))
    );
}

#[test]
fn rows_that_failed_to_evaluate_fail_the_statement() {
    let mut session = session();
    let constants = MirRelationExpr::Constant { rows: Err("division by zero".to_string()) };
    let r = Coordinator::insert_constant(&catalog(), &mut session, GlobalId::User(1), constants);
    assert_eq!(r, Err(AdapterError::Eval("division by zero".to_string())));
    assert!(no_ops(&session));
}

#[test]
fn read_only_transaction_refuses_the_insert() {
    let mut session = Session::new(1);
    session
        .start_transaction(1, Some(sequencer::session::TransactionAccessMode::ReadOnly), None)
        .unwrap();
    let constants = MirRelationExpr::Constant { rows: Ok(vec![(vec![Some(1), None, Some(1)], 1)]) };
    let r = Coordinator::insert_constant(&catalog(), &mut session, GlobalId::User(1), constants);
    assert_eq!(r, Err(AdapterError::ReadOnlyTransaction));
}

#[test]
fn magnitude_is_tested_before_rows_are_counted() {
    assert!(magnitude_fits(&vec![(vec![Some(1)], 5), (vec![Some(2)], -7)]));
    assert!(magnitude_fits(&vec![(vec![], i64::MAX)]));
    assert!(!magnitude_fits(&vec![(vec![], i64::MAX), (vec![], 1)]));
    assert!(!magnitude_fits(&vec![(vec![], i64::MIN)]));
    assert!(magnitude_fits(&vec![(vec![], i64::MIN + 1)]));
    assert!(magnitude_fits(&Vec::new()));
}

#[test]
fn transient_identifiers_rise_and_do_not_wrap() {
    let mut coord = Coordinator::new(catalog(), 0);
    assert_eq!(coord.allocate_transient_id(), Ok(GlobalId::Transient(0)));
    assert_eq!(coord.allocate_transient_id(), Ok(GlobalId::Transient(1)));
    coord.transient_id_counter = u64::MAX - 1;
    assert_eq!(coord.allocate_transient_id(), Ok(GlobalId::Transient(u64::MAX - 1)));
    assert_eq!(
        coord.allocate_transient_id(),
        Err(AdapterError::Internal("id counter overflows i64".to_string()))
    );
    assert_eq!(coord.transient_id_counter, u64::MAX);
    assert!(coord.allocate_transient_id().is_err());
}

#[test]
fn session_may_switch_access_control_on_for_itself() {
    let coord = Coordinator::new(catalog(), 0);
    let mut session = Session::new(1);
    coord.maybe_send_rbac_notice(&mut session);
    assert_eq!(session.notices, vec![AdapterNotice::RbacUserDisabled]);

    let mut session = Session::new(1);
    session.set_var("enable_session_rbac_checks".to_string(), "on".to_string());
    coord.maybe_send_rbac_notice(&mut session);
    assert!(session.notices.is_empty());

    let mut session = Session::new(1);
    session.set_var("enable_session_rbac_checks".to_string(), "off".to_string());
    coord.maybe_send_rbac_notice(&mut session);
    assert_eq!(session.drain_notices(), vec![AdapterNotice::RbacUserDisabled]);
    assert!(session.notices.is_empty());
}
