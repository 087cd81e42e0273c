//! Per-request kernel logic: replies, and the broadcast events that one
//! execute request emits, in order.
use crate::display::{
    display_view, error_name, html_text, plain_text, traceback_lines,
    DisplayFormatter, JupyterErrorFormatter, Value,
};
use crate::errors::{kind_message, reports, Fault};
use crate::session::{run_cell, JupyterSession};
use vstd::prelude::*;
use vstd::string::StringSliceAdditionalSpecFns;

verus! {

/// Version of this kernel, reported in its banner data.
pub const KERNEL_VERSION: &'static str = "0.1.0";

/// Whether the kernel is working on a request.
#[derive(Debug, Clone, Copy, PartialEq, Eq, Structural)]
pub enum ExecutionState {
    Busy,
    Idle,
}

/// Status of a reply.
#[derive(Debug, Clone, Copy, PartialEq, Eq, Structural)]
pub enum ReplyStatus {
    Success,
    Error,
}

/// The kind of a broadcast event.
#[derive(Debug, Clone, Copy, PartialEq, Eq, Structural)]
pub enum EventKind {
    Busy,
    Idle,
    Result,
    Error,
}

/// A broadcast event, before it is framed and signed.
#[derive(Debug)]
pub enum IopubEvent {
    /// `status` with an execution state.
    Status(ExecutionState),
    /// `execute_result` with the execution count and the display data.
    ExecuteResult { execution_count: u32, data: Vec<(String, String)> },
    /// `error` with its name, message and traceback.
    Error { ename: String, evalue: String, traceback: Vec<String> },
}

pub open spec fn event_kind(e: IopubEvent) -> EventKind {
    match e {
        IopubEvent::Status(ExecutionState::Busy) => EventKind::Busy,
        IopubEvent::Status(ExecutionState::Idle) => EventKind::Idle,
        IopubEvent::ExecuteResult { .. } => EventKind::Result,
        IopubEvent::Error { .. } => EventKind::Error,
    }
}

pub open spec fn event_kinds(es: Seq<IopubEvent>) -> Seq<EventKind> {
    es.map_values(|e: IopubEvent| event_kind(e))
}

/// The kinds of events that a cell with result `m` emits:
/// busy, then a result or an error where there is one, then idle.
pub open spec fn expected_kinds(m: Result<Option<i64>, Fault>) -> Seq<EventKind> {
    match m {
        Ok(Some(_)) => seq![EventKind::Busy, EventKind::Result, EventKind::Idle],
        Ok(None) => seq![EventKind::Busy, EventKind::Idle],
        Err(_) => seq![EventKind::Busy, EventKind::Error, EventKind::Idle],
    }
}

/// Reply to an execute request.
#[derive(Debug, Clone, Copy, PartialEq, Eq, Structural)]
pub struct ExecuteReply {
    pub status: ReplyStatus,
    pub execution_count: u32,
}

/// What handling an execute request produced: the reply and the events.
#[derive(Debug)]
pub struct ExecuteOutcome {
    pub reply: ExecuteReply,
    pub events: Vec<IopubEvent>,
}

/// Reply to a kernel-info request.
#[derive(Debug)]
pub struct KernelInfoReply {
    pub status: ReplyStatus,
    pub protocol_version: String,
    pub implementation: String,
    pub implementation_version: String,
    pub language_name: String,
    pub language_version: String,
    pub mimetype: String,
    pub file_extension: String,
    pub pygments_lexer: String,
    pub codemirror_mode: String,
    pub nbconvert_exporter: String,
    pub banner: String,
    pub debugger: bool,
}

/// Acknowledgement of a shutdown request.
#[derive(Debug, Clone, Copy, PartialEq, Eq, Structural)]
pub struct CustomShutdownReply {
    pub restart: bool,
}

/// The kernel's request handler, holding the session.
pub struct WabznasmJupyterKernel {
    session: JupyterSession,
}

impl View for WabznasmJupyterKernel {
    type V = crate::session::SessionState;

    closed spec fn view(&self) -> crate::session::SessionState {
        self.session@
    }
}

fn text(s: &str) -> (r: String)
    ensures
        r@ == s@,
{
    String::from_str(s)
}

impl WabznasmJupyterKernel {
    /// A handler with a fresh session.
    pub fn new() -> (r: WabznasmJupyterKernel)
        ensures
            r@.count == 0,
            r@.bindings == Seq::<(Seq<u8>, i64)>::empty(),
    {
        WabznasmJupyterKernel { session: JupyterSession::new() }
    }

    /// The number of execute requests handled since start or the last reset.
    pub fn execution_count(&self) -> (r: u32)
        ensures
            r == self@.count,
    {
        self.session.execution_count()
    }

    /// Static description of the kernel and its language.
    pub fn kernel_info(&self) -> (r: KernelInfoReply)
        ensures
            r.status == ReplyStatus::Success,
            r.protocol_version@ == "5.3"@,
            r.implementation@ == "wabznasm"@,
            r.implementation_version@ == KERNEL_VERSION@,
            r.language_name@ == "wabznasm"@,
            r.language_version@ == KERNEL_VERSION@,
            r.mimetype@ == "text/plain"@,
            r.file_extension@ == ".wz"@,
            r.pygments_lexer@ == "text"@,
            r.codemirror_mode@ == "text"@,
            r.nbconvert_exporter@ == "script"@,
            r.banner@ == "Wabznasm Kernel"@,
            !r.debugger,
    {
        KernelInfoReply {
            status: ReplyStatus::Success,
            protocol_version: text("5.3"),
            implementation: text("wabznasm"),
            implementation_version: text(KERNEL_VERSION),
            language_name: text("wabznasm"),
            language_version: text(KERNEL_VERSION),
            mimetype: text("text/plain"),
            file_extension: text(".wz"),
            pygments_lexer: text("text"),
            codemirror_mode: text("text"),
            nbconvert_exporter: text("script"),
            banner: text("Wabznasm Kernel"),
            debugger: false,
        }
    }

    /// Handles an execute request: counts it, runs the code in the session,
    /// and returns the reply with the events to broadcast, in order:
    /// busy; the result (if the cell has a value) or the error; idle.
    pub fn execute_request(&mut self, code: &str) -> (r: ExecuteOutcome)
        requires
            old(self)@.count < u32::MAX,
        ensures
            final(self)@.count == old(self)@.count + 1,
            final(self)@.bindings == run_cell(old(self)@.bindings, code.spec_bytes()).0,
            r.reply.execution_count == final(self)@.count,
            r.reply.status == (if run_cell(old(self)@.bindings, code.spec_bytes()).1 is Ok {
                ReplyStatus::Success
            } else {
                ReplyStatus::Error
            }),
            event_kinds(r.events@) == expected_kinds(
                run_cell(old(self)@.bindings, code.spec_bytes()).1,
            ),
            run_cell(old(self)@.bindings, code.spec_bytes()).1 matches Ok(Some(v)) ==> (
            r.events@[1] matches IopubEvent::ExecuteResult { execution_count, data }
                && execution_count == final(self)@.count && display_view(data@) == seq![
                ("text/plain"@, plain_text(Value::Integer(v))),
                ("text/html"@, html_text(Value::Integer(v))),
            ]),
            run_cell(old(self)@.bindings, code.spec_bytes()).1 matches Err(f) ==> (
            r.events@[1] matches IopubEvent::Error { ename, evalue, traceback }
                && ename@ == error_name() && traceback@.map_values(|s: String| s@)
                == traceback_lines(evalue@) && exists|k: crate::errors::EvalErrorKind|
                reports(k, f) && evalue@ == kind_message(k)),
    {
        let mut events: Vec<IopubEvent> = Vec::new();
        events.push(IopubEvent::Status(ExecutionState::Busy));
        let result = self.session.execute(code);
        let count = self.session.execution_count();
        let status = match result {
            Ok(Some(value)) => {
                let data = DisplayFormatter::format_value(&value);
                events.push(IopubEvent::ExecuteResult { execution_count: count, data });
                ReplyStatus::Success
            },
            Ok(None) => ReplyStatus::Success,
            Err(e) => {
                let evalue = e.message();
                let traceback = JupyterErrorFormatter::create_traceback(&e);
                events.push(IopubEvent::Error { ename: text("WabznasmError"), evalue, traceback });
                ReplyStatus::Error
            },
        };
        events.push(IopubEvent::Status(ExecutionState::Idle));
        assert(event_kinds(events@) =~= expected_kinds(
            run_cell(old(self)@.bindings, code.spec_bytes()).1,
        ));
        ExecuteOutcome { reply: ExecuteReply { status, execution_count: count }, events }
    }

    /// Handles a shutdown request: resets the session and echoes `restart`.
    pub fn shutdown_request(&mut self, restart: bool) -> (r: CustomShutdownReply)
        ensures
            r.restart == restart,
            final(self)@.count == 0,
            final(self)@.bindings == Seq::<(Seq<u8>, i64)>::empty(),
    {
        self.session.reset();
        CustomShutdownReply { restart }
    }
}

} // verus!
