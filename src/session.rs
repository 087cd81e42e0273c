//! The long-lived evaluation session: bindings and the execution counter.
use crate::display::Value;
use crate::errors::{reports, EvalError, EvalErrorKind, Fault, Span};
use crate::evaluator::{eval, eval_ast, Environment};
use crate::parser::{lex, parse_statement, parse_stmt, tokenize, Statement, Stmt};
use vstd::prelude::*;
use vstd::string::StringSliceAdditionalSpecFns;

verus! {

pub type Bindings = Seq<(Seq<u8>, i64)>;

/// What running one cell does: the bindings after it and its result
/// (`None` for a cell without a statement).
pub open spec fn run_cell(env: Bindings, code: Seq<u8>) -> (Bindings, Result<Option<i64>, Fault>) {
    match lex(code) {
        None => (env, Err(Fault::Syntax)),
        Some(t) => if t.len() == 0 {
            (env, Ok(None))
        } else {
            match parse_stmt(t) {
                None => (env, Err(Fault::Syntax)),
                Some(Stmt::Assign(n, e)) => match eval(e, env) {
                    Ok(v) => (env.push((n, v)), Ok(Some(v))),
                    Err(f) => (env, Err(f)),
                },
                Some(Stmt::Eval(e)) => match eval(e, env) {
                    Ok(v) => (env, Ok(Some(v))),
                    Err(f) => (env, Err(f)),
                },
            }
        },
    }
}

/// `r` is the executable outcome of the cell result `m`.
pub open spec fn cell_outcome_matches(
    r: Result<Option<Value>, EvalError>,
    m: Result<Option<i64>, Fault>,
) -> bool {
    match r {
        Ok(Some(Value::Integer(v))) => m == Ok::<Option<i64>, Fault>(Some(v)),
        Ok(None) => m == Ok::<Option<i64>, Fault>(None),
        Err(e) => m matches Err(f) && reports(e.kind, f),
    }
}

/// Bindings and execution counter that persist across cells.
pub struct JupyterSession {
    environment: Environment,
    execution_count: u32,
}

/// The session as a mathematical value.
pub struct SessionState {
    pub bindings: Bindings,
    pub count: nat,
}

impl View for JupyterSession {
    type V = SessionState;

    closed spec fn view(&self) -> SessionState {
        SessionState { bindings: self.environment@, count: self.execution_count as nat }
    }
}

impl JupyterSession {
    /// A session with no bindings and a counter at zero.
    pub fn new() -> (r: JupyterSession)
        ensures
            r@.bindings == Seq::<(Seq<u8>, i64)>::empty(),
            r@.count == 0,
    {
        JupyterSession { environment: Environment::new(), execution_count: 0 }
    }

    /// A copy of the current bindings.
    pub fn get_environment(&self) -> (r: Environment)
        ensures
            r@ == self@.bindings,
    {
        let r = self.environment.clone_bindings();
        r
    }

    /// Runs one cell: counts it, then parses and evaluates it against the
    /// bindings; a binding statement adds its binding when it succeeds.
    pub fn execute(&mut self, code: &str) -> (r: Result<Option<Value>, EvalError>)
        requires
            old(self)@.count < u32::MAX,
        ensures
            final(self)@.count == old(self)@.count + 1,
            final(self)@.bindings == run_cell(old(self)@.bindings, code.spec_bytes()).0,
            cell_outcome_matches(r, run_cell(old(self)@.bindings, code.spec_bytes()).1),
    {
        self.execution_count = self.execution_count + 1;
        let bytes = code.as_bytes();
        let span = Span { start: 0, end: bytes.len() };
        let toks = match tokenize(bytes) {
            Some(t) => t,
            None => {
                return Err(EvalError::new(EvalErrorKind::SyntaxError, span));
            },
        };
        if toks.len() == 0 {
            return Ok(None);
        }
        match parse_statement(&toks) {
            None => Err(EvalError::new(EvalErrorKind::SyntaxError, span)),
            Some(Statement::Assign(name, e)) => match eval_ast(&e, &self.environment) {
                Ok(v) => {
                    self.environment.define(name, v);
                    Ok(Some(Value::Integer(v)))
                },
                Err(k) => Err(EvalError::new(k, span)),
            },
            Some(Statement::Eval(e)) => match eval_ast(&e, &self.environment) {
                Ok(v) => Ok(Some(Value::Integer(v))),
                Err(k) => Err(EvalError::new(k, span)),
            },
        }
    }

    /// The number of cells run since the session began or was last reset.
    pub fn execution_count(&self) -> (r: u32)
        ensures
            r == self@.count,
    {
        self.execution_count
    }

    /// Drops all bindings and sets the counter back to zero.
    pub fn reset(&mut self)
        ensures
            final(self)@.bindings == Seq::<(Seq<u8>, i64)>::empty(),
            final(self)@.count == 0,
    {
        self.environment = Environment::new();
        self.execution_count = 0;
    }
}

} // verus!
