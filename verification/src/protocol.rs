//! The messages exchanged with an agent thread: the operations the library
//! submits and the events it reads back.
//!
//! Each type holds, as plain values, exactly what the library's logic reads
//! or writes.
use vstd::prelude::*;
use vstd::string::StringExecFns;

verus! {

/// A copy of an optional text.
pub(crate) fn clone_text(o: &Option<String>) -> (r: Option<String>)
    ensures
        r.deep_view() == o.deep_view(),
{
    match o {
        Some(s) => Some(s.clone()),
        None => None,
    }
}

/// Why a turn ended before it completed.
#[derive(Debug, Clone, Copy, PartialEq, Eq, Structural)]
pub enum TurnAbortReason {
    Interrupted,
    Replaced,
    ReviewEnded,
}

/// The name of an abort reason as its `Debug` form prints it.
pub open spec fn abort_reason_name(reason: TurnAbortReason) -> Seq<char> {
    match reason {
        TurnAbortReason::Interrupted => "Interrupted"@,
        TurnAbortReason::Replaced => "Replaced"@,
        TurnAbortReason::ReviewEnded => "ReviewEnded"@,
    }
}

impl TurnAbortReason {
    /// The reason's name, as its `Debug` form prints it.
    pub fn name(&self) -> (r: String)
        ensures
            r@ == abort_reason_name(*self),
    {
        match self {
            TurnAbortReason::Interrupted => String::from_str("Interrupted"),
            TurnAbortReason::Replaced => String::from_str("Replaced"),
            TurnAbortReason::ReviewEnded => String::from_str("ReviewEnded"),
        }
    }
}

/// A decision on a request for approval.
#[derive(Debug, Clone, Copy, PartialEq, Eq, Structural)]
pub enum ReviewDecision {
    Approved,
    ApprovedForSession,
    Denied,
    Abort,
}

/// An answer to an elicitation request of a tool server.
#[derive(Debug, Clone, Copy, PartialEq, Eq, Structural)]
pub enum ElicitationAction {
    Accept,
    Decline,
    Cancel,
}

/// The id of a tool server's request: a string or an integer.
#[derive(Debug, Clone, PartialEq, Eq)]
pub enum RequestId {
    Text(String),
    Integer(i64),
}

/// Two request ids name the same request.
pub open spec fn same_request_id(a: RequestId, b: RequestId) -> bool {
    match (a, b) {
        (RequestId::Text(x), RequestId::Text(y)) => x@ == y@,
        (RequestId::Integer(x), RequestId::Integer(y)) => x == y,
        _ => false,
    }
}

/// One piece of user input.
#[derive(Debug, Clone, PartialEq, Eq)]
pub enum UserInput {
    Text { text: String },
}

/// An operation submitted to an agent thread.
#[derive(Debug, Clone, PartialEq, Eq)]
pub enum Op {
    /// New user input for the current or the next turn.
    UserInput { items: Vec<UserInput> },
    /// Stop the current task.
    Interrupt,
    /// A decision on a command-execution request.
    ExecApproval { id: String, decision: ReviewDecision },
    /// A decision on a patch-application request.
    PatchApproval { id: String, decision: ReviewDecision },
    /// An answer to a tool server's elicitation request.
    ResolveElicitation { server_name: String, request_id: RequestId, decision: ElicitationAction },
}

/// `op` submits exactly one text input, `text`.
pub open spec fn is_user_message(op: Op, text: Seq<char>) -> bool {
    &&& op matches Op::UserInput { items }
    &&& items@.len() == 1
    &&& items@[0] matches UserInput::Text { text: t }
    &&& t@ == text
}

/// `op` decides the command-execution request `id` with `decision`.
pub open spec fn is_exec_approval(op: Op, id: Seq<char>, decision: ReviewDecision) -> bool {
    op matches Op::ExecApproval { id: i, decision: d } && i@ == id && d == decision
}

/// `op` decides the patch request `id` with `decision`.
pub open spec fn is_patch_approval(op: Op, id: Seq<char>, decision: ReviewDecision) -> bool {
    op matches Op::PatchApproval { id: i, decision: d } && i@ == id && d == decision
}

/// `op` answers the elicitation request `request_id` of `server_name` with `decision`.
pub open spec fn is_elicitation_answer(
    op: Op,
    server_name: Seq<char>,
    request_id: RequestId,
    decision: ElicitationAction,
) -> bool {
    &&& op matches Op::ResolveElicitation { server_name: s, request_id: r, decision: d }
    &&& s@ == server_name
    &&& same_request_id(r, request_id)
    &&& d == decision
}

/// What an event of an agent thread says.
#[derive(Debug, Clone, PartialEq, Eq)]
pub enum EventMsg {
    /// A fragment of the agent's message, by content item.
    AgentMessageContentDelta { delta: String },
    /// A fragment of the agent's message.
    AgentMessageDelta { delta: String },
    /// The agent's whole message.
    AgentMessage { message: String },
    /// The turn is over; the last message of the agent, if any.
    TurnComplete { last_agent_message: Option<String> },
    /// The turn was aborted.
    TurnAborted { reason: TurnAbortReason },
    /// The turn failed.
    Error { message: String },
    /// A warning that does not end the turn.
    Warning { message: String },
    /// A stream error that does not end the turn.
    StreamError { message: String },
    /// The agent asks to run a command.
    ExecApprovalRequest { call_id: String, command: Vec<String> },
    /// The agent asks to apply a patch.
    ApplyPatchApprovalRequest { call_id: String },
    /// A tool server asks the user for input.
    ElicitationRequest { server_name: String, id: RequestId },
    /// A turn item started; its `Debug` rendering.
    ItemStarted { item: String },
    /// A turn item completed; its `Debug` rendering.
    ItemCompleted { item: String },
    /// Any other event.
    Other,
}

/// An event of an agent thread.
#[derive(Debug, Clone, PartialEq, Eq)]
pub struct Event {
    /// The id of the submission the event belongs to.
    pub id: String,
    pub msg: EventMsg,
}

} // verus!
