//! A statement outside any transaction runs as if the client had wrapped
//! it in a transaction of its own: it is run in a transaction that is
//! opened for it, the transaction is committed, and the client is
//! answered once, with the statement's error or with the outcome of the
//! commit.

use crate::context::{ExecuteContext, Response};
use crate::coordinator::Coordinator;
use crate::error::AdapterError;
use crate::repr::Datum;
use crate::response::ExecuteResponse;
use crate::sequencer::Command;
use crate::session::{
    EndTransactionAction, Statement, Transaction, TransactionOps, TransactionStatus,
};
use vstd::prelude::*;

verus! {

/// A statement that is to run in the transaction opened for it. Its
/// answer goes to the wrap, not to the client.
#[derive(Debug)]
pub struct WrappedStatement {
    pub ctx: ExecuteContext,
    pub stmt: Statement,
    pub params: Vec<Datum>,
}

/// A wrap whose statement runs.
#[derive(Debug)]
pub struct AwaitingStatement {}

/// A wrap whose statement is answered and whose commit runs.
#[derive(Debug)]
pub struct AwaitingCommit {
    /// What the statement answered.
    pub statement: Result<ExecuteResponse, AdapterError>,
}

/// What a wrap does once its statement is answered.
#[derive(Debug)]
pub enum AfterStatement {
    /// It asks the coordinator to commit and waits for the outcome.
    Commit { command: Command, wrap: AwaitingCommit },
    /// The coordinator is gone and so is the client: nothing is owed.
    Abandoned,
}

/// What a wrap does once its commit is answered.
#[derive(Debug)]
pub enum AfterCommit {
    /// It answers the client.
    Respond(Response),
    /// The coordinator is gone and so is the client: nothing is owed.
    Abandoned,
}

/// What the client is answered: the statement's error where it failed,
/// else the outcome of the commit. What the statement answered where it
/// succeeded is not passed on, since the client awaits the answer to a
/// commit.
pub open spec fn authoritative(
    statement: Result<ExecuteResponse, AdapterError>,
    commit: Result<ExecuteResponse, AdapterError>,
) -> Result<ExecuteResponse, AdapterError> {
    match statement {
        Ok(_) => commit,
        Err(e) => Err(e),
    }
}

impl Coordinator {
    /// Opens the transaction around a single statement and hands the
    /// statement out to be run in it.
    pub fn sequence_execute_single_statement_transaction(
        &mut self,
        ctx: ExecuteContext,
        stmt: Statement,
        params: Vec<Datum>,
    ) -> (wrapped: (WrappedStatement, AwaitingStatement))
        requires
            ctx.session.transaction is Default,
        ensures
            *final(self) == *old(self),
            wrapped.0.stmt == stmt,
            wrapped.0.params == params,
            wrapped.0.ctx.extra == ctx.extra,
            wrapped.0.ctx.allowed is None,
            wrapped.0.ctx.session.transaction == TransactionStatus::InTransaction(
                Transaction {
                    started_at: old(self).now,
                    ops: TransactionOps::Empty,
                    access: None,
                    isolation_level: None,
                    implicit: true,
                },
            ),
            wrapped.0.ctx.session.conn_id == ctx.session.conn_id,
            wrapped.0.ctx.session.prepared_statements == ctx.session.prepared_statements,
            wrapped.0.ctx.session.portals == ctx.session.portals,
            wrapped.0.ctx.session.vars == ctx.session.vars,
            wrapped.0.ctx.session.notices == ctx.session.notices,
    {
        // The session goes into the transaction first, so that anything
        // can run in it.
        let (_, mut session, extra) = ctx.into_parts();
        session.start_transaction_single_stmt(self.now);
        // The statement answers into the wrap, so that the commit can
        // follow before the client hears of anything.
        let sub_ctx = ExecuteContext::from_parts(session, extra);
        (WrappedStatement { ctx: sub_ctx, stmt, params }, AwaitingStatement {  })
    }
}

impl AwaitingStatement {
    /// Goes on once the statement is answered, or once it is known that
    /// no answer will come. The commit is asked for whatever the
    /// statement answered, so that the transaction is closed.
    pub fn statement_finished(self, answer: Option<Response>) -> (next: AfterStatement)
        ensures
            match answer {
                Some(response) => next matches AfterStatement::Commit { command, wrap }
                    && command matches Command::Commit { action, session }
                    && action == EndTransactionAction::Commit
                    && session == response.session
                    && wrap.statement == response.result,
                None => next is Abandoned,
            },
    {
        match answer {
            Some(response) => {
                let Response { result, session } = response;
                AfterStatement::Commit {
                    command: Command::Commit { action: EndTransactionAction::Commit, session },
                    wrap: AwaitingCommit { statement: result },
                }
            },
            None => AfterStatement::Abandoned,
        }
    }
}

impl AwaitingCommit {
    /// Goes on once the commit is answered, or once it is known that no
    /// answer will come: the client is answered with the statement's
    /// error, or with the outcome of the commit where the statement
    /// succeeded.
    pub fn commit_finished(self, answer: Option<Response>) -> (next: AfterCommit)
        requires
            answer matches Some(commit) ==> commit.session.transaction is Default,
        ensures
            match answer {
                Some(commit) => next matches AfterCommit::Respond(response)
                    && response.result == authoritative(self.statement, commit.result)
                    && response.session == commit.session,
                None => next is Abandoned,
            },
    {
        match answer {
            Some(commit) => {
                let Response { result: commit_result, session } = commit;
                let result = match (self.statement, commit_result) {
                    (Ok(_), commit) => commit,
                    (Err(e), _) => Err(e),
                };
                AfterCommit::Respond(Response { result, session })
            },
            None => AfterCommit::Abandoned,
        }
    }
}

/// A statement that fails is answered with its own error, whatever the
/// commit answers; a statement that succeeds is answered with what the
/// commit answers, whatever it answered itself.
pub proof fn lemma_single_statement_answer(
    statement: Result<ExecuteResponse, AdapterError>,
    other: Result<ExecuteResponse, AdapterError>,
    commit: Result<ExecuteResponse, AdapterError>,
    other_commit: Result<ExecuteResponse, AdapterError>,
)
    ensures
        statement is Err ==> authoritative(statement, commit) == statement,
        statement is Err ==> authoritative(statement, commit) == authoritative(
            statement,
            other_commit,
        ),
        statement is Ok ==> authoritative(statement, commit) == commit,
        statement is Ok && other is Ok ==> authoritative(statement, commit) == authoritative(
            other,
            commit,
        ),
{
}

} // verus!
