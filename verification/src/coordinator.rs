//! The coordinator's own state, and the statements that it answers from
//! rows alone.

use crate::catalog::{Catalog, SystemConfig};
use crate::consolidation::{
    all_nonnegative, consolidate, consolidates, lemma_consolidation_magnitude,
    lemma_magnitude_monotone, lemma_total_within_magnitude, magnitude, magnitude_fits, total,
    Updates,
};
use crate::error::{AdapterError, AdapterNotice, CatalogError};
use crate::finishing::{expanded, finish_returning, result_bytes, Returning};
use crate::plan::{MirRelationExpr, MutationKind, SendDiffsPlan};
use crate::repr::{Diff, GlobalId, NotNullViolation, RelationDesc, Row};
use crate::response::ExecuteResponse;
use crate::session::{
    Session, TransactionAccessMode, TransactionOps, TransactionStatus, WriteOp,
};
use vstd::prelude::*;

verus! {

/// The coordinator: the catalog and the counter of transient identifiers.
pub struct Coordinator {
    pub catalog: Catalog,
    /// The next transient identifier. It only rises.
    pub transient_id_counter: u64,
    /// The wall-clock time, in milliseconds, as of the statement at hand.
    pub now: u64,
}

/// The name of the variable with which a session switches access control
/// on for itself.
pub open spec fn session_rbac_var() -> Seq<char> {
    "enable_session_rbac_checks"@
}

/// Whether the session has switched access control on for itself.
pub open spec fn session_rbac_checks(session: &Session) -> bool {
    session.vars@.dom().contains(session_rbac_var()) && session.vars@[session_rbac_var()]@ == "on"@
}

/// Whether access control holds for the session: it may be switched on at
/// all, and the system or the session has switched it on.
pub open spec fn rbac_enabled(config: &SystemConfig, session: &Session) -> bool {
    config.enable_ld_rbac_checks && (config.enable_rbac_checks || session_rbac_checks(session))
}

pub fn is_rbac_enabled_for_session(config: &SystemConfig, session: &Session) -> (b: bool)
    ensures
        b == rbac_enabled(config, session),
{
    let name = "enable_session_rbac_checks".to_owned();
    let on = "on".to_owned();
    let session_enabled = match session.vars.get(&name) {
        Some(value) => *value == on,
        None => false,
    };
    config.enable_ld_rbac_checks && (config.enable_rbac_checks || session_enabled)
}

/// The writes that a transaction has buffered.
pub open spec fn buffered_writes(ops: TransactionOps) -> Seq<WriteOp> {
    match ops {
        TransactionOps::Writes(writes) => writes@,
        _ => Seq::empty(),
    }
}

/// The error with which a transaction that has done `before`, under the
/// access mode `access`, refuses a write; `None` where it takes it.
pub open spec fn write_conflict(
    before: TransactionOps,
    access: Option<TransactionAccessMode>,
) -> Option<AdapterError> {
    match before {
        TransactionOps::Empty | TransactionOps::Writes(_) => if access == Some(
            TransactionAccessMode::ReadOnly,
        ) {
            Some(AdapterError::ReadOnlyTransaction)
        } else {
            None
        },
        TransactionOps::Peeks { timestamped } => if timestamped {
            Some(AdapterError::ReadOnlyTransaction)
        } else {
            None
        },
        TransactionOps::Subscribe => Some(AdapterError::SubscribeOnlyTransaction),
    }
}

/// Whether `after` is `before` with one more write at its end: to the
/// relation `id`, of the changes `kept`.
pub open spec fn write_buffered(
    before: TransactionOps,
    after: TransactionOps,
    id: GlobalId,
    kept: Updates,
) -> bool {
    &&& after matches TransactionOps::Writes(writes)
    &&& writes@.len() == buffered_writes(before).len() + 1
    &&& writes@.drop_last() == buffered_writes(before)
    &&& writes@.last().id == id
    &&& writes@.last().rows.deep_view() == kept
}

/// Whether `kept` is what is buffered of the changes `given`: the changes
/// as they are where none retracts, else their consolidation.
pub open spec fn kept_of(given: Updates, kept: Updates) -> bool {
    if all_nonnegative(given) {
        kept == given
    } else {
        consolidates(kept, given)
    }
}

/// The number of rows that the changes affect: their sum where none
/// retracts, else the sum of the absolute values of what is kept.
pub open spec fn affected_rows(given: Updates, kept: Updates) -> int {
    if all_nonnegative(given) {
        total(given)
    } else {
        magnitude(kept)
    }
}

/// The response that reports `affected` rows for a statement of kind
/// `kind`. An update reports what it retracts and what it inserts, each
/// row by the size of its multiplicity.
pub open spec fn row_count_response(kind: MutationKind, affected: int) -> ExecuteResponse {
    match kind {
        MutationKind::Delete => ExecuteResponse::Deleted(affected as usize),
        MutationKind::Insert => ExecuteResponse::Inserted(affected as usize),
        MutationKind::Update => ExecuteResponse::Updated(affected as usize),
    }
}

/// Whether column `i` refuses the datum that row `k` holds there.
pub open spec fn violation_at(desc: RelationDesc, rows: Updates, k: int, i: int) -> bool {
    &&& 0 <= k < rows.len()
    &&& 0 <= i < rows[k].0.len()
    &&& i < desc.columns@.len()
    &&& !desc.admits(i, rows[k].0[i])
}

/// Whether every row may stand in the relation.
pub open spec fn all_admitted(desc: RelationDesc, rows: Updates) -> bool {
    forall|k: int, i: int| !violation_at(desc, rows, k, i)
}

/// Whether the first datum that the relation refuses, going through the
/// rows in order and through each from its first column, is in column `i`
/// of row `k`.
pub open spec fn first_violation_at(desc: RelationDesc, rows: Updates, k: int, i: int) -> bool {
    &&& violation_at(desc, rows, k, i)
    &&& forall|k2: int, i2: int| (k2 < k || (k2 == k && i2 < i)) ==> !violation_at(desc, rows, k2, i2)
}

/// Whether the session `after` and the result `r` are what sending the
/// changes `given` to the relation `id` makes of the session `before`.
/// A transaction that refuses writes fails the statement and stays as it
/// is. Else the changes are buffered at the end of the transaction's
/// writes, as they are or consolidated, and the result reports the rows
/// affected; or, where rows are to be returned, these rows or the error
/// that says they are too large.
pub open spec fn diffs_sent(
    before: Session,
    after: Session,
    id: GlobalId,
    given: Updates,
    kind: MutationKind,
    returning: Returning,
    max_result_size: u32,
    r: Result<ExecuteResponse, AdapterError>,
) -> bool {
    let txn = before.transaction.inner()->0;
    let txn_after = after.transaction.inner()->0;
    let kept = buffered_writes(txn_after.ops).last().rows.deep_view();
    &&& after.conn_id == before.conn_id
    &&& after.prepared_statements == before.prepared_statements
    &&& after.portals == before.portals
    &&& after.vars == before.vars
    &&& after.notices == before.notices
    &&& after.transaction.is_live()
    &&& after.transaction is Started == before.transaction is Started
    &&& txn_after.started_at == txn.started_at
    &&& txn_after.access == txn.access
    &&& txn_after.isolation_level == txn.isolation_level
    &&& txn_after.implicit == txn.implicit
    &&& match write_conflict(txn.ops, txn.access) {
        Some(conflict) => r == Err::<ExecuteResponse, AdapterError>(conflict) && after.transaction
            == before.transaction,
        None => {
            &&& write_buffered(txn.ops, txn_after.ops, id, kept)
            &&& kept_of(given, kept)
            &&& 0 <= affected_rows(given, kept) <= magnitude(given)
            &&& if returning.len() == 0 {
                r == Ok::<ExecuteResponse, AdapterError>(
                    row_count_response(kind, affected_rows(given, kept)),
                )
            } else if result_bytes(returning) <= max_result_size {
                &&& r matches Ok(ExecuteResponse::SendingRows(rows))
                &&& rows.deep_view() == expanded(returning)
            } else {
                r == Err::<ExecuteResponse, AdapterError>(AdapterError::ResultSize(max_result_size))
            }
        },
    }
}

/// Whether no row is wider than the relation.
pub open spec fn fits_relation(desc: RelationDesc, rows: Updates) -> bool {
    forall|k: int| 0 <= k < rows.len() ==> (#[trigger] rows[k]).0.len() <= desc.columns@.len()
}

/// Whether the insert of `constants` into the relation `id` can be made.
///
/// A relation that is not in the catalog, or that has no columns, asks for
/// nothing: the insert is refused before the rows and the session are
/// looked at. Else the rows are constant, and where they have been
/// evaluated none is wider than the relation. Where every datum may stand
/// in its column, so that the rows are buffered, a transaction is open
/// and the multiplicities fit the integers in which rows are counted.
pub open spec fn insertable(
    catalog: Catalog,
    session: Session,
    id: GlobalId,
    constants: MirRelationExpr,
) -> bool {
    catalog.contains(id) ==> match catalog.entries@[catalog.position(id)].desc {
        None => true,
        Some(desc) => match constants {
            MirRelationExpr::Query => false,
            MirRelationExpr::Constant { rows: Err(_) } => true,
            MirRelationExpr::Constant { rows: Ok(rows) } => {
                &&& fits_relation(desc, rows.deep_view())
                &&& all_admitted(desc, rows.deep_view()) ==> {
                    &&& session.transaction.is_live()
                    &&& magnitude(rows.deep_view()) <= i64::MAX
                    &&& magnitude(rows.deep_view()) <= usize::MAX
                }
            },
        },
    }
}

/// Whether no row is wider than the relation.
pub fn rows_fit(desc: &RelationDesc, rows: &Vec<(Row, Diff)>) -> (b: bool)
    ensures
        b == fits_relation(*desc, rows.deep_view()),
{
    let ghost all = rows.deep_view();
    let arity = desc.arity();
    let mut k: usize = 0;
    while k < rows.len()
        invariant
            k <= rows.len(),
            all == rows.deep_view(),
            arity == desc.columns@.len(),
            forall|j: int| 0 <= j < k ==> (#[trigger] all[j]).0.len() <= arity,
        decreases rows.len() - k,
    {
        assert(all[k as int].0.len() == rows@[k as int].0@.len());
        if rows[k].0.len() > arity {
            return false;
        }
        k = k + 1;
    }
    true
}

/// The first datum that the relation refuses, going through the rows in
/// order and through each from its first column, as the violation that
/// names its column; `None` where every datum may stand.
#[verifier::loop_isolation(false)]
pub fn find_violation(desc: &RelationDesc, rows: &Vec<(Row, Diff)>) -> (found: Option<NotNullViolation>)
    requires
        fits_relation(*desc, rows.deep_view()),
    ensures
        match found {
            Some(violation) => exists|k: int, i: int| #[trigger]
                first_violation_at(*desc, rows.deep_view(), k, i) && violation.column@
                    == desc.columns@[i].name@,
            None => all_admitted(*desc, rows.deep_view()),
        },
{
    let ghost all = rows.deep_view();
    let mut k: usize = 0;
    while k < rows.len()
        invariant
            k <= rows.len(),
            forall|k2: int, i2: int| k2 < k ==> !violation_at(*desc, all, k2, i2),
        decreases rows.len() - k,
    {
        let row = &rows[k].0;
        assert(all[k as int].0 =~= row@);
        let mut i: usize = 0;
        while i < row.len()
            invariant
                k < rows.len(),
                all[k as int].0 == row@,
                forall|k2: int, i2: int|
                    (k2 < k || (k2 == k && i2 < i)) ==> !violation_at(*desc, all, k2, i2),
            decreases row.len() - i,
        {
            match desc.constraints_met(i, &row[i]) {
                Ok(()) => {},
                Err(violation) => {
                    proof {
                        assert(first_violation_at(*desc, all, k as int, i as int));
                    }
                    return Some(violation);
                },
            }
            i = i + 1;
        }
        k = k + 1;
    }
    None
}

impl Coordinator {
    /// A coordinator over `catalog` that has given out no identifier.
    pub fn new(catalog: Catalog, now: u64) -> (coord: Coordinator)
        ensures
            coord.catalog == catalog,
            coord.transient_id_counter == 0,
            coord.now == now,
    {
        Coordinator { catalog, transient_id_counter: 0, now }
    }

    /// Gives out the next transient identifier. The counter does not wrap:
    /// at its maximum every call fails and leaves it there.
    pub fn allocate_transient_id(&mut self) -> (r: Result<GlobalId, AdapterError>)
        ensures
            final(self).catalog == old(self).catalog,
            final(self).now == old(self).now,
            match r {
                Ok(id) => old(self).transient_id_counter < u64::MAX && id == GlobalId::Transient(
                    old(self).transient_id_counter,
                ) && final(self).transient_id_counter == old(self).transient_id_counter + 1,
                Err(e) => {
                    &&& old(self).transient_id_counter == u64::MAX
                    &&& final(self).transient_id_counter == u64::MAX
                    &&& e matches AdapterError::Internal(message)
                    &&& message@ == "id counter overflows i64"@
                },
            },
    {
        let id = self.transient_id_counter;
        if id == u64::MAX {
            return Err(AdapterError::Internal("id counter overflows i64".to_owned()));
        }
        self.transient_id_counter = id + 1;
        Ok(GlobalId::Transient(id))
    }

    /// Tells the session, where access control does not hold for it, who
    /// switched it off: the system, or else the session.
    pub fn maybe_send_rbac_notice(&self, session: &mut Session)
        ensures
            final(session).notices@ == if rbac_enabled(&self.catalog.system_config, old(session)) {
                old(session).notices@
            } else if !self.catalog.system_config.enable_ld_rbac_checks {
                old(session).notices@.push(AdapterNotice::RbacSystemDisabled)
            } else {
                old(session).notices@.push(AdapterNotice::RbacUserDisabled)
            },
            final(session).conn_id == old(session).conn_id,
            final(session).transaction == old(session).transaction,
            final(session).prepared_statements == old(session).prepared_statements,
            final(session).portals == old(session).portals,
            final(session).vars == old(session).vars,
    {
        if !is_rbac_enabled_for_session(self.catalog.system_config(), session) {
            if !self.catalog.system_config().enable_ld_rbac_checks {
                session.add_notice(AdapterNotice::RbacSystemDisabled);
            } else {
                session.add_notice(AdapterNotice::RbacUserDisabled);
            }
        }
    }

    /// Buffers the changes of a statement in the session's transaction and
    /// says how many rows they affect, or hands back the rows that the
    /// statement returns.
    pub fn send_diffs(session: &mut Session, plan: SendDiffsPlan) -> (r: Result<
        ExecuteResponse,
        AdapterError,
    >)
        requires
            old(session).transaction.is_live(),
            magnitude(plan.updates.deep_view()) <= i64::MAX,
            magnitude(plan.updates.deep_view()) <= usize::MAX,
        ensures
            diffs_sent(
                *old(session),
                *final(session),
                plan.id,
                plan.updates.deep_view(),
                plan.kind,
                plan.returning.deep_view(),
                plan.max_result_size,
                r,
            ),
    {
        let SendDiffsPlan { id, updates, kind, returning, max_result_size } = plan;
        let mut updates = updates;
        let ghost given = updates.deep_view();
        let mut affected: i64 = 0;
        let mut all_positive_diffs = true;
        let mut i: usize = 0;
        proof {
            lemma_total_within_magnitude(given);
        }
        // Where no change retracts, the rows affected are the sum of the
        // multiplicities as they stand.
        while i < updates.len() && all_positive_diffs
            invariant
                i <= updates.len(),
                given == updates.deep_view(),
                magnitude(given) <= i64::MAX,
                all_positive_diffs ==> all_nonnegative(given.take(i as int)) && affected == total(
                    given.take(i as int),
                ),
                !all_positive_diffs ==> !all_nonnegative(given),
            decreases updates.len() - i + if all_positive_diffs { 1int } else { 0int },
        {
            let diff = updates[i].1;
            assert(given[i as int].1 == diff);
            if diff < 0 {
                all_positive_diffs = false;
            } else {
                proof {
                    assert(given.take(i + 1).drop_last() =~= given.take(i as int));
                    assert(all_nonnegative(given.take(i + 1))) by {
                        assert forall|k: int| 0 <= k < given.take(i + 1).len() implies (
                        #[trigger] given.take(i + 1)[k]).1 >= 0 by {
                            if k < i {
                                assert(given.take(i as int)[k].1 >= 0);
                            }
                        }
                    }
                    lemma_total_within_magnitude(given.take(i + 1));
                    lemma_magnitude_monotone(given, i + 1);
                }
                affected = affected + diff;
                i = i + 1;
            }
        }
        if !all_positive_diffs {
            // A retraction is there: equal rows are merged first, so that a
            // row that is retracted and inserted again does not count, and
            // each row that stays counts by the size of its multiplicity.
            consolidate(&mut updates);
            let ghost kept = updates.deep_view();
            proof {
                lemma_consolidation_magnitude(kept, given);
            }
            affected = 0;
            let mut k: usize = 0;
            while k < updates.len()
                invariant
                    k <= updates.len(),
                    kept == updates.deep_view(),
                    magnitude(kept) <= i64::MAX,
                    affected == magnitude(kept.take(k as int)),
                decreases updates.len() - k,
            {
                let diff = updates[k].1;
                proof {
                    assert(kept[k as int].1 == diff);
                    assert(kept.take(k + 1).drop_last() =~= kept.take(k as int));
                    lemma_magnitude_monotone(kept, k + 1);
                    lemma_total_within_magnitude(kept.take(k as int));
                }
                let size = if diff < 0 {
                    -diff
                } else {
                    diff
                };
                affected = affected + size;
                k = k + 1;
            }
            proof {
                assert(kept.take(updates.len() as int) =~= kept);
                lemma_total_within_magnitude(kept);
            }
        } else {
            proof {
                assert(given.take(updates.len() as int) =~= given);
            }
        }
        let ghost kept = updates.deep_view();
        assert(kept_of(given, kept));
        assert(affected == affected_rows(given, kept));
        let affected_rows = affected as usize;

        let ghost before = old(session).transaction.inner()->0;
        let mut writes = Vec::new();
        writes.push(WriteOp { id, rows: updates });
        let add = TransactionOps::Writes(writes);
        match session.add_transaction_ops(add) {
            Ok(()) => {},
            Err(e) => {
                return Err(e);
            },
        }
        proof {
            let after = session.transaction.inner()->0;
            assert(buffered_writes(after.ops) =~= buffered_writes(before.ops).push(
                writes@[0],
            ));
            assert(buffered_writes(after.ops).drop_last() =~= buffered_writes(before.ops));
        }
        if returning.len() > 0 {
            return match finish_returning(returning, max_result_size) {
                Ok(rows) => Ok(ExecuteResponse::SendingRows(rows)),
                Err(e) => Err(e),
            };
        }
        Ok(
            match kind {
                MutationKind::Delete => ExecuteResponse::Deleted(affected_rows),
                MutationKind::Insert => ExecuteResponse::Inserted(affected_rows),
                MutationKind::Update => ExecuteResponse::Updated(affected_rows),
            },
        )
    }

    /// Whether the insert of `constants` into the relation `id` can be
    /// made, where the relation is in the catalog and has columns.
    pub fn can_insert_constant(
        catalog: &Catalog,
        session: &Session,
        id: GlobalId,
        constants: &MirRelationExpr,
    ) -> (b: bool)
        ensures
            b == insertable(*catalog, *session, id, *constants),
    {
        let desc = match catalog.try_get_entry(&id) {
            Some(table) => match table.desc() {
                Ok(desc) => desc,
                Err(_) => {
                    return true;
                },
            },
            None => {
                return true;
            },
        };
        let rows = match constants {
            MirRelationExpr::Constant { rows: Ok(rows) } => rows,
            MirRelationExpr::Constant { rows: Err(_) } => {
                return true;
            },
            MirRelationExpr::Query => {
                return false;
            },
        };
        if !rows_fit(desc, rows) {
            return false;
        }
        match find_violation(desc, rows) {
            Some(_) => true,
            None => {
                let live = match session.transaction() {
                    TransactionStatus::Started(_) | TransactionStatus::InTransaction(_) => true,
                    _ => false,
                };
                live && magnitude_fits(rows)
            },
        }
    }

    /// Inserts rows that are known without evaluation into the relation
    /// `id`. The relation is looked up first: one that is gone, or that
    /// has no columns, fails the statement whatever the rows and the
    /// session are. Then every datum is held against its column: the
    /// first that is refused fails the statement, and no row of it is
    /// buffered.
    pub fn insert_constant(
        catalog: &Catalog,
        session: &mut Session,
        id: GlobalId,
        constants: MirRelationExpr,
    ) -> (r: Result<ExecuteResponse, AdapterError>)
        requires
            insertable(*catalog, *old(session), id, constants),
        ensures
            !catalog.contains(id) ==> r == Err::<ExecuteResponse, AdapterError>(
                AdapterError::SqlCatalog(CatalogError::UnknownItem(id)),
            ) && *final(session) == *old(session),
            catalog.contains(id) ==> ({
                let entry = catalog.entries@[catalog.position(id)];
                match (entry.desc, constants) {
                    (None, _) => r == Err::<ExecuteResponse, AdapterError>(
                        AdapterError::SqlCatalog(CatalogError::InvalidDependency(id)),
                    ) && *final(session) == *old(session),
                    (Some(_), MirRelationExpr::Constant { rows: Err(message) }) => r == Err::<
                        ExecuteResponse,
                        AdapterError,
                    >(AdapterError::Eval(message)) && *final(session) == *old(session),
                    (Some(desc), MirRelationExpr::Constant { rows: Ok(rows) }) => if all_admitted(
                        desc,
                        rows.deep_view(),
                    ) {
                        diffs_sent(
                            *old(session),
                            *final(session),
                            id,
                            rows.deep_view(),
                            MutationKind::Insert,
                            Seq::empty(),
                            catalog.system_config.max_result_size,
                            r,
                        )
                    } else {
                        &&& *final(session) == *old(session)
                        &&& r matches Err(AdapterError::ConstraintViolation(violation))
                        &&& exists|k: int, i: int| #[trigger]
                            first_violation_at(desc, rows.deep_view(), k, i) && violation.column@
                                == desc.columns@[i].name@
                    },
                    _ => true,
                }
            }),
    {
        // The statement may have waited: the relation may be gone.
        let desc = match catalog.try_get_entry(&id) {
            Some(table) => match table.desc() {
                Ok(desc) => desc,
                Err(e) => {
                    return Err(AdapterError::SqlCatalog(e));
                },
            },
            None => {
                return Err(AdapterError::SqlCatalog(CatalogError::UnknownItem(id)));
            },
        };
        let rows = match constants {
            MirRelationExpr::Constant { rows } => rows,
            MirRelationExpr::Query => {
                return Err(AdapterError::SqlCatalog(CatalogError::UnknownItem(id)));
            },
        };
        let rows = match rows {
            Ok(rows) => rows,
            Err(message) => {
                return Err(AdapterError::Eval(message));
            },
        };
        let ghost all = rows.deep_view();
        match find_violation(desc, &rows) {
            Some(violation) => {
                return Err(AdapterError::ConstraintViolation(violation));
            },
            None => {},
        }
        assert(all_admitted(*desc, all));
        let diffs_plan = SendDiffsPlan {
            id,
            updates: rows,
            kind: MutationKind::Insert,
            returning: Vec::new(),
            max_result_size: catalog.system_config().max_result_size,
        };
        assert(diffs_plan.returning.deep_view() =~= Seq::empty());
        Self::send_diffs(session, diffs_plan)
    }
}

} // verus!
