//! A filter that turns the events of an agent thread into a few simple
//! kinds, and helpers that build the operations most often submitted.
use vstd::prelude::*;
use vstd::string::StringExecFns;

use crate::protocol::abort_reason_name;
use crate::protocol::clone_text;
use crate::protocol::is_exec_approval;
use crate::protocol::is_user_message;
use crate::protocol::Event;
use crate::protocol::EventMsg;
use crate::protocol::Op;
use crate::protocol::ReviewDecision;
use crate::protocol::UserInput;

verus! {

/// The `Debug` rendering of a list of strings, as `format!("{:?}", list)`
/// prints a `Vec<String>` with these contents.
pub uninterp spec fn debug_string_list(items: Seq<Seq<char>>) -> Seq<char>;

/// Calls std's `Debug` formatting (`format!("{:?}", ..)`) on a list of
/// strings. Trusted to return the rendering that `debug_string_list` names:
/// the rendering depends on the strings' contents alone.
#[verifier::external_body]
fn format_debug_list(items: &Vec<String>) -> (r: String)
    ensures
        r@ == debug_string_list(items.deep_view()),
{
    format!("{:?}", items)
}

/// Simplified representation of agent events.
#[derive(Debug, Clone, PartialEq, Eq)]
pub enum FilteredEvent {
    /// Agent sent a message fragment (delta).
    MessageDelta(String),
    /// Turn completed successfully; the last agent message, if any.
    TurnComplete { last_message: Option<String> },
    /// Turn was aborted; the reason's name.
    TurnAborted { reason: String },
    /// An error occurred.
    Error(String),
    /// Agent requests approval to run a command; the command's rendering
    /// and the call id to use when responding.
    ApprovalRequest { command: String, call_id: String },
    /// A turn item started.
    ItemStarted(String),
    /// A turn item completed.
    ItemCompleted(String),
}

/// `r` is the simplified form of the event `msg`: `None` for the events
/// that simple use cases ignore.
pub open spec fn filter_result(msg: EventMsg, r: Option<FilteredEvent>) -> bool {
    match msg {
        EventMsg::AgentMessageContentDelta { delta } => r matches Some(
            FilteredEvent::MessageDelta(d),
        ) && d@ == delta@,
        EventMsg::TurnComplete { last_agent_message } => r matches Some(
            FilteredEvent::TurnComplete { last_message },
        ) && last_message.deep_view() == last_agent_message.deep_view(),
        EventMsg::TurnAborted { reason } => r matches Some(FilteredEvent::TurnAborted { reason: s })
            && s@ == abort_reason_name(reason),
        EventMsg::Error { message } => r matches Some(FilteredEvent::Error(m)) && m@ == message@,
        EventMsg::ExecApprovalRequest { call_id, command } => r matches Some(
            FilteredEvent::ApprovalRequest { command: c, call_id: i },
        ) && c@ == debug_string_list(command.deep_view()) && i@ == call_id@,
        EventMsg::ItemStarted { item } => r matches Some(FilteredEvent::ItemStarted(s)) && s@
            == item@,
        EventMsg::ItemCompleted { item } => r matches Some(FilteredEvent::ItemCompleted(s)) && s@
            == item@,
        _ => r is None,
    }
}

/// Filter and simplify agent events for common use cases.
#[derive(Debug, Clone, Copy, Default)]
pub struct EventFilter;

impl EventFilter {
    /// Create a new event filter.
    pub fn new() -> (r: Self)
        ensures
            r == EventFilter,
    {
        EventFilter
    }

    /// Filter an event to a simplified representation.
    ///
    /// Returns `None` for events that are typically ignored in simple use
    /// cases (progress updates, warnings, and the like).
    pub fn filter(&self, event: &Event) -> (r: Option<FilteredEvent>)
        ensures
            filter_result(event.msg, r),
    {
        match &event.msg {
            EventMsg::AgentMessageContentDelta { delta } => Some(
                FilteredEvent::MessageDelta(delta.clone()),
            ),
            EventMsg::TurnComplete { last_agent_message } => Some(
                FilteredEvent::TurnComplete { last_message: clone_text(last_agent_message) },
            ),
            EventMsg::TurnAborted { reason } => Some(
                FilteredEvent::TurnAborted { reason: reason.name() },
            ),
            EventMsg::Error { message } => Some(FilteredEvent::Error(message.clone())),
            EventMsg::ExecApprovalRequest { call_id, command } => Some(
                FilteredEvent::ApprovalRequest {
                    command: format_debug_list(command),
                    call_id: call_id.clone(),
                },
            ),
            EventMsg::ItemStarted { item } => Some(FilteredEvent::ItemStarted(item.clone())),
            EventMsg::ItemCompleted { item } => Some(FilteredEvent::ItemCompleted(item.clone())),
            _ => None,
        }
    }
}

/// Builder for the operations most often submitted to an agent thread.
#[derive(Debug, Clone, Copy)]
pub struct OpBuilder;

impl OpBuilder {
    /// Create a user message operation: one text input.
    pub fn user_message(content: &str) -> (r: Op)
        ensures
            is_user_message(r, content@),
    {
        let mut items: Vec<UserInput> = Vec::new();
        items.push(UserInput::Text { text: String::from_str(content) });
        Op::UserInput { items }
    }

    /// Create an interrupt operation to stop the current task.
    pub fn interrupt() -> (r: Op)
        ensures
            r matches Op::Interrupt,
    {
        Op::Interrupt
    }

    /// Create an operation that approves the command execution `request_id`.
    pub fn approve_exec(request_id: &str) -> (r: Op)
        ensures
            is_exec_approval(r, request_id@, ReviewDecision::Approved),
    {
        Op::ExecApproval { id: String::from_str(request_id), decision: ReviewDecision::Approved }
    }

    /// Create an operation that denies the command execution `request_id`.
    pub fn deny_exec(request_id: &str) -> (r: Op)
        ensures
            is_exec_approval(r, request_id@, ReviewDecision::Denied),
    {
        Op::ExecApproval { id: String::from_str(request_id), decision: ReviewDecision::Denied }
    }
}

} // verus!
