use sequencer::coordinator::Coordinator;
use sequencer::error::AdapterError;
use sequencer::plan::{MutationKind, SendDiffsPlan};
use sequencer::repr::{Diff, GlobalId, Row};
use sequencer::response::ExecuteResponse;
use sequencer::session::{Session, TransactionOps, TransactionStatus};

fn row_a() -> Row {
    vec![Some(1), Some(10)]
}

fn row_b() -> Row {
    vec![Some(2), None]
}

fn session_in_transaction() -> Session {
    let mut session = Session::new(7);
    session.start_transaction_single_stmt(1_000);
    session
}

fn plan(updates: Vec<(Row, Diff)>, kind: MutationKind) -> SendDiffsPlan {
    SendDiffsPlan {
        id: GlobalId::User(1),
        updates,
        kind,
        returning: Vec::new(),
        max_result_size: 1 << 20,
    }
}

fn buffered(session: &Session) -> Vec<(Row, Diff)> {
    match &session.transaction {
        TransactionStatus::InTransaction(txn) => match &txn.ops {
            TransactionOps::Writes(writes) => writes.last().unwrap().rows.clone(),
            _ => panic!("no writes are buffered"),
        },
        _ => panic!("no transaction"),
    }
}

#[test]
fn two_insertions_affect_two_rows() {
    let mut session = session_in_transaction();
    let r = Coordinator::send_diffs(
        &mut session,
        plan(vec![(row_a(), 1), (row_b(), 1)], MutationKind::Insert),
    );
    assert!(matches!(r, Ok(ExecuteResponse::Inserted(2))));
    assert_eq!(buffered(&session), vec![(row_a(), 1), (row_b(), 1)]);
}

#[test]
fn cancelled_row_does_not_count() {
    let mut session = session_in_transaction();
    let r = Coordinator::send_diffs(
        &mut session,
        plan(vec![(row_a(), 1), (row_a(), -1), (row_b(), 1)], MutationKind::Delete),
    );
    assert!(matches!(r, Ok(ExecuteResponse::Deleted(1))));
    assert_eq!(buffered(&session), vec![(row_b(), 1)]);
}

#[test]
fn retraction_and_insertion_count_each() {
    let mut session = session_in_transaction();
    let r = Coordinator::send_diffs(
        &mut session,
        plan(vec![(row_b(), 1), (row_a(), -1)], MutationKind::Delete),
    );
    assert!(matches!(r, Ok(ExecuteResponse::Deleted(2))));
    assert_eq!(buffered(&session), vec![(row_a(), -1), (row_b(), 1)]);
}

#[test]
fn every_kind_of_statement_reports_the_same_count() {
    for kind in [MutationKind::Delete, MutationKind::Insert, MutationKind::Update] {
        let mut session = session_in_transaction();
        let r = Coordinator::send_diffs(
            &mut session,
            plan(vec![(row_a(), -1), (row_b(), 1)], kind),
        );
        let expected = match kind {
            MutationKind::Delete => ExecuteResponse::Deleted(2),
            MutationKind::Insert => ExecuteResponse::Inserted(2),
            MutationKind::Update => ExecuteResponse::Updated(2),
        };
        assert_eq!(r, Ok(expected));
    }
}

#[test]
fn update_that_changes_nothing_affects_no_row() {
    let mut session = session_in_transaction();
    let r = Coordinator::send_diffs(
        &mut session,
        plan(vec![(row_a(), -1), (row_a(), 1)], MutationKind::Update),
    );
    assert_eq!(r, Ok(ExecuteResponse::Updated(0)));
    assert_eq!(buffered(&session), Vec::new());
}

#[test]
fn positive_updates_are_not_merged() {
    let mut session = session_in_transaction();
    let r = Coordinator::send_diffs(
        &mut session,
        plan(vec![(row_b(), 2), (row_a(), 1), (row_b(), 3)], MutationKind::Insert),
    );
    assert!(matches!(r, Ok(ExecuteResponse::Inserted(6))));
    assert_eq!(buffered(&session), vec![(row_b(), 2), (row_a(), 1), (row_b(), 3)]);
}

#[test]
fn returned_rows_replace_the_count() {
    let mut session = session_in_transaction();
    let mut p = plan(vec![(row_a(), 1)], MutationKind::Insert);
    p.returning = vec![(row_a(), 2), (row_b(), 1)];
    match Coordinator::send_diffs(&mut session, p) {
        Ok(ExecuteResponse::SendingRows(rows)) => {
            assert_eq!(rows, vec![row_a(), row_a(), row_b()]);
        }
        other => panic!("expected rows, got {:?}", other),
    }
}

#[test]
fn returned_rows_over_the_limit_are_an_error() {
    let mut session = session_in_transaction();
    let mut p = plan(vec![(row_a(), 1)], MutationKind::Insert);
    // row_a takes 18 bytes, twice is 36.
    p.returning = vec![(row_a(), 2)];
    p.max_result_size = 35;
    let r = Coordinator::send_diffs(&mut session, p);
    assert!(matches!(r, Err(AdapterError::ResultSize(35))));
}
