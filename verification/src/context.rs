//! The context of one statement: the session that issued it and the single
//! answer that it is owed.

use crate::error::AdapterError;
use crate::response::{ExecuteContextExtra, ExecuteResponse, ExecuteResponseKind};
use crate::session::{Session, TransactionStatus};
use vstd::prelude::*;

verus! {

/// The answer to a statement, with the session handed back.
#[derive(Debug)]
pub struct Response {
    pub result: Result<ExecuteResponse, AdapterError>,
    pub session: Session,
}

/// The context of one statement. It owns the session while the statement
/// is sequenced. Retiring it consumes it, so that a statement is answered
/// once.
#[derive(Debug)]
pub struct ExecuteContext {
    /// The session that issued the statement.
    pub session: Session,
    /// The kinds of response that the statement may give; `None` until they
    /// are declared.
    pub allowed: Option<Vec<ExecuteResponseKind>>,
    /// What accompanies the statement for tracing and auditing.
    pub extra: ExecuteContextExtra,
}

/// Whether `kind` is one of `kinds`.
pub fn contains_kind(kinds: &Vec<ExecuteResponseKind>, kind: ExecuteResponseKind) -> (b: bool)
    ensures
        b == kinds@.contains(kind),
{
    let mut i: usize = 0;
    while i < kinds.len()
        invariant
            i <= kinds@.len(),
            forall|k: int| 0 <= k < i ==> kinds@[k] != kind,
        decreases kinds.len() - i,
    {
        if kinds[i] == kind {
            return true;
        }
        i = i + 1;
    }
    false
}

impl ExecuteContext {
    /// The context of a statement of `session`, with no kinds declared.
    pub fn from_parts(session: Session, extra: ExecuteContextExtra) -> (ctx: ExecuteContext)
        ensures
            ctx.session == session,
            ctx.extra == extra,
            ctx.allowed is None,
    {
        ExecuteContext { session, allowed: None, extra }
    }

    /// Takes the context apart without answering.
    pub fn into_parts(self) -> (parts: (Option<Vec<ExecuteResponseKind>>, Session, ExecuteContextExtra))
        ensures
            parts.0 == self.allowed,
            parts.1 == self.session,
            parts.2 == self.extra,
    {
        (self.allowed, self.session, self.extra)
    }

    /// Declares the kinds of response that the statement may give.
    pub fn set_allowed(&mut self, allowed: Vec<ExecuteResponseKind>)
        ensures
            final(self).allowed == Some(allowed),
            final(self).session == old(self).session,
            final(self).extra == old(self).extra,
    {
        self.allowed = Some(allowed);
    }

    pub fn session(&self) -> (s: &Session)
        ensures
            *s == self.session,
    {
        &self.session
    }

    /// Whether `result` may be delivered: an error always, a response where
    /// its kind was declared or nothing was.
    pub open spec fn permits_spec(&self, result: &Result<ExecuteResponse, AdapterError>) -> bool {
        match (result, self.allowed) {
            (Ok(response), Some(allowed)) => allowed@.contains(response.kind()),
            _ => true,
        }
    }

    #[verifier::when_used_as_spec(permits_spec)]
    pub fn permits(&self, result: &Result<ExecuteResponse, AdapterError>) -> (b: bool)
        ensures
            b == self.permits_spec(result),
    {
        match (result, &self.allowed) {
            (Ok(response), Some(allowed)) => contains_kind(allowed, response.kind()),
            _ => true,
        }
    }

    /// What is delivered for `result`: the result itself where it is
    /// permitted, else the error that says it was not.
    pub open spec fn delivered(&self, result: Result<ExecuteResponse, AdapterError>) -> Result<
        ExecuteResponse,
        AdapterError,
    > {
        if self.permits(&result) {
            result
        } else {
            Err(AdapterError::UnexpectedResponse)
        }
    }

    /// The status of the transaction once `delivered` has been delivered in
    /// status `before`: a failure fails a transaction of the client, the
    /// start of a transaction leaves it started, and any other success
    /// counts as a statement run in it.
    pub open spec fn status_after(
        before: TransactionStatus,
        delivered: Result<ExecuteResponse, AdapterError>,
    ) -> TransactionStatus {
        match delivered {
            Ok(ExecuteResponse::StartedTransaction) => before,
            Ok(_) => Session::after_statement(before),
            Err(_) => Session::after_failure(before),
        }
    }

    /// Ends the statement with `result` and hands the session back. A
    /// response of a kind that was not declared is not delivered: the
    /// statement fails in its place.
    pub fn retire(self, result: Result<ExecuteResponse, AdapterError>) -> (response: Response)
        ensures
            response.result == self.delivered(result),
            response.result is Ok ==> self.permits(&response.result),
            response.session.transaction == Self::status_after(
                self.session.transaction,
                response.result,
            ),
            response.session.conn_id == self.session.conn_id,
            response.session.prepared_statements == self.session.prepared_statements,
            response.session.portals == self.session.portals,
            response.session.vars == self.session.vars,
            response.session.notices == self.session.notices,
    {
        let permitted = self.permits(&result);
        let mut session = self.session;
        let result = if permitted {
            result
        } else {
            Err(AdapterError::UnexpectedResponse)
        };
        match &result {
            Ok(ExecuteResponse::StartedTransaction) => {},
            Ok(_) => session.note_statement(),
            Err(_) => session.fail_transaction(),
        }
        Response { result, session }
    }
}

} // verus!
