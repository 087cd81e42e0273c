//! Message headers, message types, and the request loop's state machine.
use vstd::prelude::*;

verus! {

/// Header of a protocol message.
#[derive(Debug, Clone)]
pub struct Header {
    pub msg_id: String,
    pub session: String,
    pub username: String,
    /// ISO-8601 timestamp.
    pub date: String,
    pub msg_type: String,
    pub version: String,
}

/// The request types that the kernel handles; any other is `Unhandled`.
#[derive(Debug, Clone, Copy, PartialEq, Eq, Structural)]
pub enum MessageKind {
    KernelInfoRequest,
    ExecuteRequest,
    ShutdownRequest,
    InterruptRequest,
    Unhandled,
}

/// The kind that a message-type string selects.
pub open spec fn kind_of(t: Seq<char>) -> MessageKind {
    if t == "kernel_info_request"@ {
        MessageKind::KernelInfoRequest
    } else if t == "execute_request"@ {
        MessageKind::ExecuteRequest
    } else if t == "shutdown_request"@ {
        MessageKind::ShutdownRequest
    } else if t == "interrupt_request"@ {
        MessageKind::InterruptRequest
    } else {
        MessageKind::Unhandled
    }
}

/// The kind that a message-type string selects.
pub fn message_kind(msg_type: &str) -> (r: MessageKind)
    ensures
        r == kind_of(msg_type@),
{
    let t = String::from_str(msg_type);
    if t == String::from_str("kernel_info_request") {
        MessageKind::KernelInfoRequest
    } else if t == String::from_str("execute_request") {
        MessageKind::ExecuteRequest
    } else if t == String::from_str("shutdown_request") {
        MessageKind::ShutdownRequest
    } else if t == String::from_str("interrupt_request") {
        MessageKind::InterruptRequest
    } else {
        MessageKind::Unhandled
    }
}

/// The message type of the reply to a request of kind `k`, if it gets one.
pub open spec fn reply_type_of(k: MessageKind) -> Option<Seq<char>> {
    match k {
        MessageKind::KernelInfoRequest => Some("kernel_info_reply"@),
        MessageKind::ExecuteRequest => Some("execute_reply"@),
        MessageKind::ShutdownRequest => Some("shutdown_reply"@),
        MessageKind::InterruptRequest => Some("interrupt_reply"@),
        MessageKind::Unhandled => None,
    }
}

/// The message type of the reply to a request of kind `k`, if it gets one.
pub fn reply_type(k: MessageKind) -> (r: Option<&'static str>)
    ensures
        match r {
            Some(s) => reply_type_of(k) == Some(s@),
            None => reply_type_of(k) is None,
        },
{
    match k {
        MessageKind::KernelInfoRequest => Some("kernel_info_reply"),
        MessageKind::ExecuteRequest => Some("execute_reply"),
        MessageKind::ShutdownRequest => Some("shutdown_reply"),
        MessageKind::InterruptRequest => Some("interrupt_reply"),
        MessageKind::Unhandled => None,
    }
}

fn copy_text(s: &String) -> (r: String)
    ensures
        r@ == s@,
{
    String::from_str(s.as_str())
}

/// Header of a message sent on behalf of `parent`: a fresh id and time, the
/// given type, and the parent's session, username and protocol version.
pub fn child_header(parent: &Header, msg_type: &str, msg_id: String, date: String) -> (r: Header)
    ensures
        r.msg_id@ == msg_id@,
        r.date@ == date@,
        r.msg_type@ == msg_type@,
        r.session@ == parent.session@,
        r.username@ == parent.username@,
        r.version@ == parent.version@,
{
    Header {
        msg_id,
        session: copy_text(&parent.session),
        username: copy_text(&parent.username),
        date,
        msg_type: String::from_str(msg_type),
        version: copy_text(&parent.version),
    }
}

/// State of the request loop.
#[derive(Debug, Clone, Copy, PartialEq, Eq, Structural)]
pub enum RunnerState {
    Running,
    Terminated,
}

/// What the request loop does with one incoming message.
#[derive(Debug, Clone, Copy, PartialEq, Eq, Structural)]
pub enum Action {
    /// Handle the request and send a signed reply.
    Reply(MessageKind),
    /// Log and drop the message; send nothing.
    Drop,
}

/// One step of the request loop: `incoming` is the parsed message's kind, or
/// `None` where parsing failed. Only a shutdown request leaves `Running`, and
/// a malformed, forged or unhandled message gets no reply.
pub open spec fn step_spec(state: RunnerState, incoming: Option<MessageKind>) -> (RunnerState, Action) {
    match state {
        RunnerState::Terminated => (RunnerState::Terminated, Action::Drop),
        RunnerState::Running => match incoming {
            None => (RunnerState::Running, Action::Drop),
            Some(MessageKind::Unhandled) => (RunnerState::Running, Action::Drop),
            Some(MessageKind::ShutdownRequest) => (
                RunnerState::Terminated,
                Action::Reply(MessageKind::ShutdownRequest),
            ),
            Some(k) => (RunnerState::Running, Action::Reply(k)),
        },
    }
}

/// One step of the request loop.
pub fn step(state: RunnerState, incoming: Option<MessageKind>) -> (r: (RunnerState, Action))
    ensures
        r == step_spec(state, incoming),
{
    match state {
        RunnerState::Terminated => (RunnerState::Terminated, Action::Drop),
        RunnerState::Running => match incoming {
            None => (RunnerState::Running, Action::Drop),
            Some(MessageKind::Unhandled) => (RunnerState::Running, Action::Drop),
            Some(MessageKind::ShutdownRequest) => (
                RunnerState::Terminated,
                Action::Reply(MessageKind::ShutdownRequest),
            ),
            Some(k) => (RunnerState::Running, Action::Reply(k)),
        },
    }
}

/// The loop leaves `Running` only on a shutdown request, and every request
/// that gets a reply is one of the four handled kinds.
pub proof fn lemma_only_shutdown_terminates(incoming: Option<MessageKind>)
    ensures
        step_spec(RunnerState::Running, incoming).0 == RunnerState::Terminated <==> incoming
            == Some(MessageKind::ShutdownRequest),
        step_spec(RunnerState::Running, incoming).1 matches Action::Reply(k) ==> incoming == Some(k)
            && reply_type_of(k) is Some,
{
}

} // verus!
