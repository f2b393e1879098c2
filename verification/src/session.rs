//! The state of one connection: its transaction, prepared statements,
//! cursors, variables and pending notices.

use crate::error::{AdapterError, AdapterNotice};
use crate::names::NameMap;
use crate::repr::{Datum, Diff, GlobalId, Row};
use vstd::prelude::*;

verus! {

/// Whether a transaction may write.
#[derive(Clone, Copy, Debug, PartialEq, Eq, Structural)]
pub enum TransactionAccessMode {
    ReadWrite,
    ReadOnly,
}

/// How far a transaction is shielded from others.
#[derive(Clone, Copy, Debug, PartialEq, Eq, Structural)]
pub enum IsolationLevel {
    ReadUncommitted,
    ReadCommitted,
    RepeatableRead,
    Serializable,
    StrictSerializable,
}

/// How a transaction ends.
#[derive(Clone, Copy, Debug, PartialEq, Eq, Structural)]
pub enum EndTransactionAction {
    Commit,
    Rollback,
}

/// The changes that one statement makes to one relation.
#[derive(Debug, PartialEq, Eq)]
pub struct WriteOp {
    /// The relation written to.
    pub id: GlobalId,
    /// The changes, in the order in which the statement gave them.
    pub rows: Vec<(Row, Diff)>,
}

/// What the statements of a transaction have done so far.
#[derive(Debug, PartialEq, Eq)]
pub enum TransactionOps {
    /// Nothing yet.
    Empty,
    /// Queries. `timestamped` says whether one of them read at a
    /// timestamp; constant queries do not.
    Peeks { timestamped: bool },
    /// A subscription.
    Subscribe,
    /// Writes, buffered until the transaction commits.
    Writes(Vec<WriteOp>),
}

/// An open transaction.
#[derive(Debug, PartialEq, Eq)]
pub struct Transaction {
    /// The wall-clock time at which it began, in milliseconds.
    pub started_at: u64,
    /// What its statements have done.
    pub ops: TransactionOps,
    /// The access mode asked for, if any.
    pub access: Option<TransactionAccessMode>,
    /// The isolation level asked for, if any.
    pub isolation_level: Option<IsolationLevel>,
    /// Whether it was opened around a single statement and not by a
    /// statement of the client.
    pub implicit: bool,
}

/// Where a session stands with respect to transactions.
#[derive(Debug, PartialEq, Eq)]
pub enum TransactionStatus {
    /// No transaction is open.
    Default,
    /// A transaction is open and no statement has run in it.
    Started(Transaction),
    /// A transaction is open and statements have run in it.
    InTransaction(Transaction),
    /// A statement of the transaction failed. Only its end leaves this.
    Failed(Transaction),
}

impl TransactionStatus {
    /// Whether a transaction is open that was opened around a single
    /// statement.
    pub open spec fn is_implicit_spec(&self) -> bool {
        match self {
            TransactionStatus::Default => false,
            TransactionStatus::Started(txn) => txn.implicit,
            TransactionStatus::InTransaction(txn) => txn.implicit,
            TransactionStatus::Failed(txn) => txn.implicit,
        }
    }

    #[verifier::when_used_as_spec(is_implicit_spec)]
    pub fn is_implicit(&self) -> (b: bool)
        ensures
            b == self.is_implicit_spec(),
    {
        match self {
            TransactionStatus::Default => false,
            TransactionStatus::Started(txn) => txn.implicit,
            TransactionStatus::InTransaction(txn) => txn.implicit,
            TransactionStatus::Failed(txn) => txn.implicit,
        }
    }

    /// Whether a transaction is open that has not failed.
    pub open spec fn is_live(&self) -> bool {
        self is Started || self is InTransaction
    }

    /// The open transaction, if there is one.
    pub open spec fn inner(&self) -> Option<Transaction> {
        match self {
            TransactionStatus::Default => None,
            TransactionStatus::Started(txn) => Some(*txn),
            TransactionStatus::InTransaction(txn) => Some(*txn),
            TransactionStatus::Failed(txn) => Some(*txn),
        }
    }
}

/// A parsed statement, kept as its text.
#[derive(Debug, PartialEq, Eq)]
pub struct Statement {
    pub sql: String,
}

/// What a statement takes and gives.
#[derive(Debug, PartialEq, Eq)]
pub struct StatementDesc {
    /// The types of its parameters, by identifier.
    pub param_types: Vec<u32>,
    /// The number of columns of its result, if it returns rows.
    pub arity: Option<usize>,
}

/// A statement that was prepared under a name.
#[derive(Debug, PartialEq, Eq)]
pub struct PreparedStatement {
    /// The statement; `None` for the empty query.
    pub stmt: Option<Statement>,
    /// Its text.
    pub sql: String,
    /// What it takes and gives.
    pub desc: StatementDesc,
    /// The revision of the catalog at which it was prepared.
    pub catalog_revision: u64,
    /// The time at which it was prepared, in milliseconds.
    pub prepared_at: u64,
}

/// How far a cursor has been read.
#[derive(Clone, Copy, Debug, PartialEq, Eq, Structural)]
pub enum PortalState {
    NotStarted,
    InProgress,
    Completed,
}

/// An open cursor: a statement bound to its parameters.
#[derive(Debug, PartialEq, Eq)]
pub struct Portal {
    /// The statement; `None` for the empty query.
    pub stmt: Option<Statement>,
    /// The values of its parameters.
    pub parameters: Vec<Datum>,
    /// The revision of the catalog at which the statement was prepared.
    pub catalog_revision: u64,
    /// How far it has been read.
    pub state: PortalState,
}

/// The state of one connection.
#[derive(Debug)]
pub struct Session {
    /// The connection, unique among the live ones.
    pub conn_id: u32,
    /// Where the session stands with respect to transactions.
    pub transaction: TransactionStatus,
    /// The prepared statements, by name.
    pub prepared_statements: NameMap<PreparedStatement>,
    /// The open cursors, by name.
    pub portals: NameMap<Portal>,
    /// The variables that were set, by name. One that is not here has its
    /// default.
    pub vars: NameMap<String>,
    /// The notices that wait to be sent to the client, oldest first.
    pub notices: Vec<AdapterNotice>,
}

/// Which parts of a session a step may change.
pub struct Touched {
    pub transaction: bool,
    pub prepared_statements: bool,
    pub portals: bool,
    pub vars: bool,
    pub notices: bool,
}

impl Session {
    /// Whether `after` is this session but for the parts that `touched`
    /// names. The connection is never another.
    pub open spec fn unchanged_but(&self, after: Session, touched: Touched) -> bool {
        &&& after.conn_id == self.conn_id
        &&& touched.transaction || after.transaction == self.transaction
        &&& touched.prepared_statements || after.prepared_statements == self.prepared_statements
        &&& touched.portals || after.portals == self.portals
        &&& touched.vars || after.vars == self.vars
        &&& touched.notices || after.notices == self.notices
    }

    /// The session of a new connection.
    pub fn new(conn_id: u32) -> (s: Session)
        ensures
            s.conn_id == conn_id,
            s.transaction is Default,
            s.prepared_statements@.dom() == Set::<Seq<char>>::empty(),
            s.portals@.dom() == Set::<Seq<char>>::empty(),
            s.vars@.dom() == Set::<Seq<char>>::empty(),
            s.notices@ == Seq::<AdapterNotice>::empty(),
    {
        Session {
            conn_id,
            transaction: TransactionStatus::Default,
            prepared_statements: NameMap::new(),
            portals: NameMap::new(),
            vars: NameMap::new(),
            notices: Vec::new(),
        }
    }

    pub fn conn_id(&self) -> (id: u32)
        ensures
            id == self.conn_id,
    {
        self.conn_id
    }

    pub fn transaction(&self) -> (t: &TransactionStatus)
        ensures
            *t == self.transaction,
    {
        &self.transaction
    }

    /// Queues a notice for the client.
    pub fn add_notice(&mut self, notice: AdapterNotice)
        ensures
            final(self).notices@ == old(self).notices@.push(notice),
            final(self).conn_id == old(self).conn_id,
            final(self).transaction == old(self).transaction,
            final(self).prepared_statements == old(self).prepared_statements,
            final(self).portals == old(self).portals,
            final(self).vars == old(self).vars,
    {
        self.notices.push(notice);
    }

    /// Hands out the queued notices, oldest first, and empties the queue.
    pub fn drain_notices(&mut self) -> (notices: Vec<AdapterNotice>)
        ensures
            notices@ == old(self).notices@,
            final(self).notices@ == Seq::<AdapterNotice>::empty(),
            final(self).conn_id == old(self).conn_id,
            final(self).transaction == old(self).transaction,
            final(self).prepared_statements == old(self).prepared_statements,
            final(self).portals == old(self).portals,
            final(self).vars == old(self).vars,
    {
        let mut notices = Vec::new();
        std::mem::swap(&mut notices, &mut self.notices);
        notices
    }

    /// The status after `START TRANSACTION` in status `before`: a new
    /// transaction where none is open; else the open one, made explicit,
    /// with the access mode and isolation level that were given.
    pub open spec fn started(
        before: TransactionStatus,
        now: u64,
        access: Option<TransactionAccessMode>,
        isolation_level: Option<IsolationLevel>,
    ) -> TransactionStatus {
        match before {
            TransactionStatus::Default => TransactionStatus::Started(
                Transaction {
                    started_at: now,
                    ops: TransactionOps::Empty,
                    access,
                    isolation_level,
                    implicit: false,
                },
            ),
            TransactionStatus::Started(txn) => TransactionStatus::Started(
                Self::restarted(txn, access, isolation_level),
            ),
            TransactionStatus::InTransaction(txn) => TransactionStatus::InTransaction(
                Self::restarted(txn, access, isolation_level),
            ),
            TransactionStatus::Failed(txn) => TransactionStatus::Failed(txn),
        }
    }

    /// An open transaction after another `START TRANSACTION`.
    pub open spec fn restarted(
        txn: Transaction,
        access: Option<TransactionAccessMode>,
        isolation_level: Option<IsolationLevel>,
    ) -> Transaction {
        Transaction {
            started_at: txn.started_at,
            ops: txn.ops,
            access: if access is Some {
                access
            } else {
                txn.access
            },
            isolation_level: if isolation_level is Some {
                isolation_level
            } else {
                txn.isolation_level
            },
            implicit: false,
        }
    }

    /// Opens a transaction at the request of the client, or carries on with
    /// the one that is open. Only a transaction that has failed refuses:
    /// it has to be ended first.
    pub fn start_transaction(
        &mut self,
        now: u64,
        access: Option<TransactionAccessMode>,
        isolation_level: Option<IsolationLevel>,
    ) -> (r: Result<(), AdapterError>)
        ensures
            match r {
                Ok(()) => !(old(self).transaction is Failed),
                Err(e) => old(self).transaction is Failed && e == AdapterError::TransactionAborted,
            },
            final(self).transaction == Self::started(
                old(self).transaction,
                now,
                access,
                isolation_level,
            ),
            final(self).conn_id == old(self).conn_id,
            final(self).prepared_statements == old(self).prepared_statements,
            final(self).portals == old(self).portals,
            final(self).vars == old(self).vars,
            final(self).notices == old(self).notices,
    {
        let mut status = TransactionStatus::Default;
        std::mem::swap(&mut status, &mut self.transaction);
        match status {
            TransactionStatus::Default => {
                self.transaction = TransactionStatus::Started(
                    Transaction {
                        started_at: now,
                        ops: TransactionOps::Empty,
                        access,
                        isolation_level,
                        implicit: false,
                    },
                );
                Ok(())
            },
            TransactionStatus::Started(txn) => {
                self.transaction = TransactionStatus::Started(restart(txn, access, isolation_level));
                Ok(())
            },
            TransactionStatus::InTransaction(txn) => {
                self.transaction = TransactionStatus::InTransaction(
                    restart(txn, access, isolation_level),
                );
                Ok(())
            },
            TransactionStatus::Failed(txn) => {
                self.transaction = TransactionStatus::Failed(txn);
                Err(AdapterError::TransactionAborted)
            },
        }
    }

    /// Opens the transaction that wraps a single statement.
    pub fn start_transaction_single_stmt(&mut self, now: u64)
        requires
            old(self).transaction is Default,
        ensures
            final(self).transaction == TransactionStatus::InTransaction(
                Transaction {
                    started_at: now,
                    ops: TransactionOps::Empty,
                    access: None,
                    isolation_level: None,
                    implicit: true,
                },
            ),
            final(self).conn_id == old(self).conn_id,
            final(self).prepared_statements == old(self).prepared_statements,
            final(self).portals == old(self).portals,
            final(self).vars == old(self).vars,
            final(self).notices == old(self).notices,
    {
        self.transaction = TransactionStatus::InTransaction(
            Transaction {
                started_at: now,
                ops: TransactionOps::Empty,
                access: None,
                isolation_level: None,
                implicit: true,
            },
        );
    }

    /// The status once a statement has run in status `before`.
    pub open spec fn after_statement(before: TransactionStatus) -> TransactionStatus {
        match before {
            TransactionStatus::Started(txn) => TransactionStatus::InTransaction(txn),
            other => other,
        }
    }

    /// Records that a statement has run: a transaction that was only
    /// started has statements from now on.
    pub fn note_statement(&mut self)
        ensures
            final(self).transaction == Self::after_statement(old(self).transaction),
            final(self).conn_id == old(self).conn_id,
            final(self).prepared_statements == old(self).prepared_statements,
            final(self).portals == old(self).portals,
            final(self).vars == old(self).vars,
            final(self).notices == old(self).notices,
    {
        let mut status = TransactionStatus::Default;
        std::mem::swap(&mut status, &mut self.transaction);
        self.transaction =
        match status {
            TransactionStatus::Started(txn) => TransactionStatus::InTransaction(txn),
            other => other,
        };
    }

    /// The status once a statement has failed in status `before`: an open
    /// transaction has failed with it.
    pub open spec fn after_failure(before: TransactionStatus) -> TransactionStatus {
        match before {
            TransactionStatus::Started(txn) => TransactionStatus::Failed(txn),
            TransactionStatus::InTransaction(txn) => TransactionStatus::Failed(txn),
            other => other,
        }
    }

    /// Records that a statement has failed.
    pub fn fail_transaction(&mut self)
        ensures
            final(self).transaction == Self::after_failure(old(self).transaction),
            final(self).conn_id == old(self).conn_id,
            final(self).prepared_statements == old(self).prepared_statements,
            final(self).portals == old(self).portals,
            final(self).vars == old(self).vars,
            final(self).notices == old(self).notices,
    {
        let mut status = TransactionStatus::Default;
        std::mem::swap(&mut status, &mut self.transaction);
        self.transaction =
        match status {
            TransactionStatus::Started(txn) => TransactionStatus::Failed(txn),
            TransactionStatus::InTransaction(txn) => TransactionStatus::Failed(txn),
            other => other,
        };
    }

    /// Closes the transaction and hands out the status that it had.
    pub fn clear_transaction(&mut self) -> (before: TransactionStatus)
        ensures
            before == old(self).transaction,
            final(self).transaction is Default,
            final(self).conn_id == old(self).conn_id,
            final(self).prepared_statements == old(self).prepared_statements,
            final(self).portals == old(self).portals,
            final(self).vars == old(self).vars,
            final(self).notices == old(self).notices,
    {
        let mut status = TransactionStatus::Default;
        std::mem::swap(&mut status, &mut self.transaction);
        status
    }
}

/// The error with which a transaction that has done `before`, under the
/// access mode `access`, refuses `add`; `None` where it takes it.
pub open spec fn ops_conflict(
    before: TransactionOps,
    access: Option<TransactionAccessMode>,
    add: TransactionOps,
) -> Option<AdapterError> {
    match before {
        TransactionOps::Empty => if add is Writes && access == Some(
            TransactionAccessMode::ReadOnly,
        ) {
            Some(AdapterError::ReadOnlyTransaction)
        } else {
            None
        },
        TransactionOps::Peeks { timestamped } => match add {
            TransactionOps::Peeks { .. } => None,
            TransactionOps::Writes(_) => if timestamped {
                Some(AdapterError::ReadOnlyTransaction)
            } else {
                None
            },
            _ => Some(AdapterError::ReadOnlyTransaction),
        },
        TransactionOps::Subscribe => Some(AdapterError::SubscribeOnlyTransaction),
        TransactionOps::Writes(_) => match add {
            TransactionOps::Writes(_) => if access == Some(TransactionAccessMode::ReadOnly) {
                Some(AdapterError::ReadOnlyTransaction)
            } else {
                None
            },
            TransactionOps::Peeks { timestamped } => if timestamped {
                Some(AdapterError::WriteOnlyTransaction)
            } else {
                None
            },
            _ => Some(AdapterError::WriteOnlyTransaction),
        },
    }
}

/// Whether `after` is what a transaction that had done `before` has done
/// once it took `add`: writes are appended to writes, queries join
/// queries, a constant query leaves writes as they are, and anything
/// replaces nothing or constant queries.
pub open spec fn ops_merged(before: TransactionOps, add: TransactionOps, after: TransactionOps) -> bool {
    match (before, add) {
        (TransactionOps::Peeks { timestamped: t1 }, TransactionOps::Peeks { timestamped: t2 }) => after
            == (TransactionOps::Peeks { timestamped: t1 || t2 }),
        (TransactionOps::Writes(w), TransactionOps::Writes(a)) => after matches TransactionOps::Writes(
            m,
        ) && m@ == w@ + a@,
        (TransactionOps::Writes(_), TransactionOps::Peeks { .. }) => after == before,
        _ => after == add,
    }
}

impl Transaction {
    /// Adds `add` to what the transaction has done, or refuses it and
    /// stays as it is.
    pub fn add_ops(&mut self, add: TransactionOps) -> (r: Result<(), AdapterError>)
        ensures
            final(self).started_at == old(self).started_at,
            final(self).access == old(self).access,
            final(self).isolation_level == old(self).isolation_level,
            final(self).implicit == old(self).implicit,
            match r {
                Ok(()) => ops_conflict(old(self).ops, old(self).access, add) is None && ops_merged(
                    old(self).ops,
                    add,
                    final(self).ops,
                ),
                Err(e) => ops_conflict(old(self).ops, old(self).access, add) == Some(e) && final(self).ops == old(self).ops,
            },
    {
        let read_only = match self.access {
            Some(TransactionAccessMode::ReadOnly) => true,
            _ => false,
        };
        let mut ops = TransactionOps::Empty;
        std::mem::swap(&mut ops, &mut self.ops);
        match ops {
            TransactionOps::Empty => {
                let writes = match &add {
                    TransactionOps::Writes(_) => true,
                    _ => false,
                };
                if writes && read_only {
                    self.ops = TransactionOps::Empty;
                    return Err(AdapterError::ReadOnlyTransaction);
                }
                self.ops = add;
            },
            TransactionOps::Peeks { timestamped } => match add {
                TransactionOps::Peeks { timestamped: t2 } => {
                    self.ops = TransactionOps::Peeks { timestamped: timestamped || t2 };
                },
                TransactionOps::Writes(w) => {
                    if timestamped {
                        self.ops = TransactionOps::Peeks { timestamped };
                        return Err(AdapterError::ReadOnlyTransaction);
                    }
                    self.ops = TransactionOps::Writes(w);
                },
                _ => {
                    self.ops = TransactionOps::Peeks { timestamped };
                    return Err(AdapterError::ReadOnlyTransaction);
                },
            },
            TransactionOps::Subscribe => {
                self.ops = TransactionOps::Subscribe;
                return Err(AdapterError::SubscribeOnlyTransaction);
            },
            TransactionOps::Writes(mut writes) => match add {
                TransactionOps::Writes(mut more) => {
                    if read_only {
                        self.ops = TransactionOps::Writes(writes);
                        return Err(AdapterError::ReadOnlyTransaction);
                    }
                    writes.append(&mut more);
                    self.ops = TransactionOps::Writes(writes);
                },
                TransactionOps::Peeks { timestamped } => {
                    self.ops = TransactionOps::Writes(writes);
                    if timestamped {
                        return Err(AdapterError::WriteOnlyTransaction);
                    }
                },
                _ => {
                    self.ops = TransactionOps::Writes(writes);
                    return Err(AdapterError::WriteOnlyTransaction);
                },
            },
        }
        Ok(())
    }
}

impl Session {
    /// Adds `add` to what the open transaction has done. A transaction
    /// that refuses it stays as it is, and so does the session.
    pub fn add_transaction_ops(&mut self, add: TransactionOps) -> (r: Result<(), AdapterError>)
        requires
            old(self).transaction.is_live(),
        ensures
            final(self).conn_id == old(self).conn_id,
            final(self).prepared_statements == old(self).prepared_statements,
            final(self).portals == old(self).portals,
            final(self).vars == old(self).vars,
            final(self).notices == old(self).notices,
            final(self).transaction is Started == old(self).transaction is Started,
            final(self).transaction.is_live(),
            ({
                let before = old(self).transaction.inner()->0;
                let after = final(self).transaction.inner()->0;
                &&& after.started_at == before.started_at
                &&& after.access == before.access
                &&& after.isolation_level == before.isolation_level
                &&& after.implicit == before.implicit
                &&& match r {
                    Ok(()) => ops_conflict(before.ops, before.access, add) is None && ops_merged(
                        before.ops,
                        add,
                        after.ops,
                    ),
                    Err(e) => ops_conflict(before.ops, before.access, add) == Some(e)
                        && final(self).transaction == old(self).transaction,
                }
            }),
    {
        let mut status = TransactionStatus::Default;
        std::mem::swap(&mut status, &mut self.transaction);
        match status {
            TransactionStatus::Started(mut txn) => {
                let r = txn.add_ops(add);
                self.transaction = TransactionStatus::Started(txn);
                r
            },
            TransactionStatus::InTransaction(mut txn) => {
                let r = txn.add_ops(add);
                self.transaction = TransactionStatus::InTransaction(txn);
                r
            },
            other => {
                self.transaction = other;
                Ok(())
            },
        }
    }

    /// The prepared statement of this name, whether or not the catalog has
    /// changed since it was prepared.
    pub fn get_prepared_statement_unverified(&self, name: &String) -> (ps: Option<&PreparedStatement>)
        ensures
            match ps {
                Some(ps) => self.prepared_statements@.dom().contains(name@) && *ps
                    == self.prepared_statements@[name@],
                None => !self.prepared_statements@.dom().contains(name@),
            },
    {
        self.prepared_statements.get(name)
    }

    /// Registers a prepared statement under `name`, in place of any that
    /// had the name.
    pub fn set_prepared_statement(
        &mut self,
        name: String,
        stmt: Option<Statement>,
        sql: String,
        desc: StatementDesc,
        catalog_revision: u64,
        now: u64,
    )
        ensures
            final(self).prepared_statements@ == old(self).prepared_statements@.insert(
                name@,
                PreparedStatement { stmt, sql, desc, catalog_revision, prepared_at: now },
            ),
            final(self).conn_id == old(self).conn_id,
            final(self).transaction == old(self).transaction,
            final(self).portals == old(self).portals,
            final(self).vars == old(self).vars,
            final(self).notices == old(self).notices,
    {
        self.prepared_statements.insert(
            name,
            PreparedStatement { stmt, sql, desc, catalog_revision, prepared_at: now },
        );
    }

    /// Removes the prepared statement of this name and says whether there
    /// was one.
    pub fn remove_prepared_statement(&mut self, name: &String) -> (found: bool)
        ensures
            found == old(self).prepared_statements@.dom().contains(name@),
            final(self).prepared_statements@ == old(self).prepared_statements@.remove(name@),
            !found ==> final(self).prepared_statements == old(self).prepared_statements,
            final(self).conn_id == old(self).conn_id,
            final(self).transaction == old(self).transaction,
            final(self).portals == old(self).portals,
            final(self).vars == old(self).vars,
            final(self).notices == old(self).notices,
    {
        self.prepared_statements.remove(name).is_some()
    }

    /// Removes every prepared statement.
    pub fn remove_all_prepared_statements(&mut self)
        ensures
            final(self).prepared_statements@ == Map::<Seq<char>, PreparedStatement>::empty(),
            final(self).conn_id == old(self).conn_id,
            final(self).transaction == old(self).transaction,
            final(self).portals == old(self).portals,
            final(self).vars == old(self).vars,
            final(self).notices == old(self).notices,
    {
        self.prepared_statements.clear();
    }

    /// Opens a cursor under `name`, in place of any that had the name.
    pub fn set_portal(&mut self, name: String, portal: Portal)
        ensures
            final(self).portals@ == old(self).portals@.insert(name@, portal),
            final(self).conn_id == old(self).conn_id,
            final(self).transaction == old(self).transaction,
            final(self).prepared_statements == old(self).prepared_statements,
            final(self).vars == old(self).vars,
            final(self).notices == old(self).notices,
    {
        self.portals.insert(name, portal);
    }

    /// Closes the cursor of this name and says whether there was one.
    pub fn remove_portal(&mut self, name: &String) -> (found: bool)
        ensures
            found == old(self).portals@.dom().contains(name@),
            final(self).portals@ == old(self).portals@.remove(name@),
            !found ==> final(self).portals == old(self).portals,
            final(self).conn_id == old(self).conn_id,
            final(self).transaction == old(self).transaction,
            final(self).prepared_statements == old(self).prepared_statements,
            final(self).vars == old(self).vars,
            final(self).notices == old(self).notices,
    {
        self.portals.remove(name).is_some()
    }

    /// Sets a variable.
    pub fn set_var(&mut self, name: String, value: String)
        ensures
            final(self).vars@ == old(self).vars@.insert(name@, value),
            final(self).conn_id == old(self).conn_id,
            final(self).transaction == old(self).transaction,
            final(self).prepared_statements == old(self).prepared_statements,
            final(self).portals == old(self).portals,
            final(self).notices == old(self).notices,
    {
        self.vars.insert(name, value);
    }

    /// Gives a variable its default again.
    pub fn reset_var(&mut self, name: &String)
        ensures
            final(self).vars@ == old(self).vars@.remove(name@),
            final(self).conn_id == old(self).conn_id,
            final(self).transaction == old(self).transaction,
            final(self).prepared_statements == old(self).prepared_statements,
            final(self).portals == old(self).portals,
            final(self).notices == old(self).notices,
    {
        let _ = self.vars.remove(name);
    }

    /// Brings the session back to what a new connection has: no
    /// transaction, no prepared statement, no cursor, every variable at its
    /// default. Notices stay queued.
    pub fn reset(&mut self)
        ensures
            final(self).transaction is Default,
            final(self).prepared_statements@ == Map::<Seq<char>, PreparedStatement>::empty(),
            final(self).portals@ == Map::<Seq<char>, Portal>::empty(),
            final(self).vars@ == Map::<Seq<char>, String>::empty(),
            final(self).conn_id == old(self).conn_id,
            final(self).notices == old(self).notices,
    {
        self.transaction = TransactionStatus::Default;
        self.prepared_statements.clear();
        self.portals.clear();
        self.vars.clear();
    }
}

/// An open transaction after another `START TRANSACTION`.
fn restart(
    txn: Transaction,
    access: Option<TransactionAccessMode>,
    isolation_level: Option<IsolationLevel>,
) -> (t: Transaction)
    ensures
        t == Session::restarted(txn, access, isolation_level),
{
    Transaction {
        started_at: txn.started_at,
        ops: txn.ops,
        access: if access.is_some() {
            access
        } else {
            txn.access
        },
        isolation_level: if isolation_level.is_some() {
            isolation_level
        } else {
            txn.isolation_level
        },
        implicit: false,
    }
}

} // verus!
