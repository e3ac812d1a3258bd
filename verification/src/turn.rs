//! The handling of the events of one turn: what the agent loop collects as
//! the reply, what it answers on the agent's requests, and when the turn
//! ends.
use vstd::prelude::*;
use vstd::string::StringExecFns;

use crate::protocol::abort_reason_name;
use crate::protocol::clone_text;
use crate::protocol::is_elicitation_answer;
use crate::protocol::is_exec_approval;
use crate::protocol::is_patch_approval;
use crate::protocol::ElicitationAction;
use crate::protocol::Event;
use crate::protocol::EventMsg;
use crate::protocol::Op;
use crate::protocol::ReviewDecision;
use crate::protocol::TurnAbortReason;

verus! {

/// Why a turn failed.
#[derive(Debug, Clone, PartialEq, Eq)]
pub enum AgentError {
    /// The turn was aborted.
    TurnAborted(TurnAbortReason),
    /// The thread reported an error; its message.
    TurnFailed(String),
}

/// The text of an error.
pub open spec fn agent_error_message(e: AgentError) -> Seq<char> {
    match e {
        AgentError::TurnAborted(reason) => "Turn was aborted: "@ + abort_reason_name(reason),
        AgentError::TurnFailed(message) => "Error: "@ + message@,
    }
}

impl AgentError {
    /// The text of the error.
    pub fn message(&self) -> (r: String)
        ensures
            r@ == agent_error_message(*self),
    {
        match self {
            AgentError::TurnAborted(reason) => {
                let name = reason.name();
                String::from_str("Turn was aborted: ").concat(name.as_str())
            },
            AgentError::TurnFailed(message) => String::from_str("Error: ").concat(
                message.as_str(),
            ),
        }
    }
}

/// What the agent loop does after an event.
#[derive(Debug, Clone, PartialEq, Eq)]
pub enum EventOutcome {
    /// Wait for the next event.
    Continue,
    /// Submit this operation, then wait for the next event.
    Submit(Op),
    /// The turn is over.
    TurnComplete,
}

/// What the agent loop remembers during a turn.
pub struct TurnState {
    /// The reply collected so far; `None` when the reply is not collected.
    pub response_text: Option<String>,
    /// The agent's last whole message.
    pub last_message: Option<String>,
}

/// The contents of a [`TurnState`].
pub struct TurnView {
    pub response: Option<Seq<char>>,
    pub last: Option<Seq<char>>,
}

impl View for TurnState {
    type V = TurnView;

    open spec fn view(&self) -> TurnView {
        TurnView { response: self.response_text.deep_view(), last: self.last_message.deep_view() }
    }
}

/// The reply `response` with `delta` added at its end; nothing when the reply is not collected.
pub open spec fn appended(response: Option<Seq<char>>, delta: Seq<char>) -> Option<Seq<char>> {
    match response {
        Some(text) => Some(text + delta),
        None => None,
    }
}

/// The reply `response`, replaced by `fill` where it is collected, still empty, and `fill` is given.
pub open spec fn filled_if_empty(response: Option<Seq<char>>, fill: Option<Seq<char>>) -> Option<
    Seq<char>,
> {
    match response {
        Some(text) => if text.len() == 0 && fill is Some {
            fill
        } else {
            Some(text)
        },
        None => None,
    }
}

/// The first of two optional texts that is given.
pub open spec fn first_given(a: Option<Seq<char>>, b: Option<Seq<char>>) -> Option<Seq<char>> {
    match a {
        Some(x) => Some(x),
        None => b,
    }
}

/// What the agent loop remembers after the event `msg`.
pub open spec fn next_turn_view(s: TurnView, msg: EventMsg) -> TurnView {
    match msg {
        EventMsg::AgentMessageContentDelta { delta } => TurnView {
            response: appended(s.response, delta@),
            last: s.last,
        },
        EventMsg::AgentMessageDelta { delta } => TurnView {
            response: appended(s.response, delta@),
            last: s.last,
        },
        EventMsg::AgentMessage { message } => TurnView {
            response: filled_if_empty(s.response, Some(message@)),
            last: Some(message@),
        },
        EventMsg::TurnComplete { last_agent_message } => TurnView {
            response: filled_if_empty(
                s.response,
                first_given(last_agent_message.deep_view(), s.last),
            ),
            last: s.last,
        },
        _ => s,
    }
}

/// `r` is what the agent loop does after the event `msg`.
pub open spec fn turn_outcome(msg: EventMsg, r: Result<EventOutcome, AgentError>) -> bool {
    match msg {
        EventMsg::TurnComplete { .. } => r matches Ok(EventOutcome::TurnComplete),
        EventMsg::TurnAborted { reason } => r matches Err(AgentError::TurnAborted(x)) && x
            == reason,
        EventMsg::Error { message } => r matches Err(AgentError::TurnFailed(m)) && m@ == message@,
        EventMsg::ExecApprovalRequest { call_id, .. } => r matches Ok(EventOutcome::Submit(op))
            && is_exec_approval(op, call_id@, ReviewDecision::Approved),
        EventMsg::ApplyPatchApprovalRequest { call_id } => r matches Ok(EventOutcome::Submit(op))
            && is_patch_approval(op, call_id@, ReviewDecision::Approved),
        EventMsg::ElicitationRequest { server_name, id } => r matches Ok(
            EventOutcome::Submit(op),
        ) && is_elicitation_answer(op, server_name@, id, ElicitationAction::Accept),
        _ => r matches Ok(EventOutcome::Continue),
    }
}

impl TurnState {
    /// The state at the start of a turn whose reply is collected.
    pub fn collecting() -> (s: TurnState)
        ensures
            s@.response == Some(Seq::<char>::empty()),
            s@.last is None,
    {
        TurnState { response_text: Some(String::new()), last_message: None }
    }

    /// The state at the start of a turn whose reply is not collected.
    pub fn observing() -> (s: TurnState)
        ensures
            s@.response is None,
            s@.last is None,
    {
        TurnState { response_text: None, last_message: None }
    }

    /// The reply collected so far; empty when none is collected.
    pub fn response(&self) -> (r: String)
        ensures
            r@ == match self@.response {
                Some(text) => text,
                None => Seq::<char>::empty(),
            },
    {
        match &self.response_text {
            Some(text) => text.clone(),
            None => String::new(),
        }
    }

    fn append_response(&mut self, delta: &str)
        ensures
            final(self)@.response == appended(old(self)@.response, delta@),
            final(self)@.last == old(self)@.last,
    {
        let current = self.response_text.take();
        self.response_text = match current {
            Some(text) => Some(text.concat(delta)),
            None => None,
        };
    }

    fn fill_response_if_empty(&mut self, fill: Option<String>)
        ensures
            final(self)@.response == filled_if_empty(old(self)@.response, fill.deep_view()),
            final(self)@.last == old(self)@.last,
    {
        let current = self.response_text.take();
        self.response_text = match current {
            Some(text) => {
                if text.as_str().is_empty() {
                    match fill {
                        Some(f) => Some(f),
                        None => Some(text),
                    }
                } else {
                    Some(text)
                }
            },
            None => None,
        };
    }

    /// Takes in one event of the turn: collects the reply, answers the
    /// agent's requests for approval with an approval, and says whether the
    /// turn is over or has failed.
    pub fn handle_event(&mut self, event: Event) -> (r: Result<EventOutcome, AgentError>)
        ensures
            final(self)@ == next_turn_view(old(self)@, event.msg),
            turn_outcome(event.msg, r),
    {
        match event.msg {
            EventMsg::AgentMessageContentDelta { delta } => {
                self.append_response(delta.as_str());
                Ok(EventOutcome::Continue)
            },
            EventMsg::AgentMessageDelta { delta } => {
                self.append_response(delta.as_str());
                Ok(EventOutcome::Continue)
            },
            EventMsg::AgentMessage { message } => {
                self.fill_response_if_empty(Some(message.clone()));
                self.last_message = Some(message);
                Ok(EventOutcome::Continue)
            },
            EventMsg::TurnComplete { last_agent_message } => {
                let fill = match last_agent_message {
                    Some(m) => Some(m),
                    None => clone_text(&self.last_message),
                };
                self.fill_response_if_empty(fill);
                Ok(EventOutcome::TurnComplete)
            },
            EventMsg::TurnAborted { reason } => Err(AgentError::TurnAborted(reason)),
            EventMsg::Error { message } => Err(AgentError::TurnFailed(message)),
            EventMsg::ExecApprovalRequest { call_id, .. } => Ok(
                EventOutcome::Submit(
                    Op::ExecApproval { id: call_id, decision: ReviewDecision::Approved },
                ),
            ),
            EventMsg::ApplyPatchApprovalRequest { call_id } => Ok(
                EventOutcome::Submit(
                    Op::PatchApproval { id: call_id, decision: ReviewDecision::Approved },
                ),
            ),
            EventMsg::ElicitationRequest { server_name, id } => Ok(
                EventOutcome::Submit(
                    Op::ResolveElicitation {
                        server_name,
                        request_id: id,
                        decision: ElicitationAction::Accept,
                    },
                ),
            ),
            _ => Ok(EventOutcome::Continue),
        }
    }
}


/// The text that the event `msg` streams: its fragment of the agent's
/// message, or nothing.
pub open spec fn delta_text(msg: EventMsg) -> Seq<char> {
    match msg {
        EventMsg::AgentMessageContentDelta { delta } => delta@,
        EventMsg::AgentMessageDelta { delta } => delta@,
        _ => Seq::<char>::empty(),
    }
}

/// The text that the events `msgs` stream, in order.
pub open spec fn streamed_text(msgs: Seq<EventMsg>) -> Seq<char>
    decreases msgs.len(),
{
    if msgs.len() == 0 {
        Seq::<char>::empty()
    } else {
        delta_text(msgs[0]) + streamed_text(msgs.drop_first())
    }
}

/// What the agent loop remembers after the events `msgs`, one after the other.
pub open spec fn run_turn(s: TurnView, msgs: Seq<EventMsg>) -> TurnView
    decreases msgs.len(),
{
    if msgs.len() == 0 {
        s
    } else {
        run_turn(next_turn_view(s, msgs[0]), msgs.drop_first())
    }
}

/// A collected reply only grows: whatever the events, the reply collected
/// before them is the beginning of the reply after them; a reply that is
/// not collected is never collected.
pub proof fn law_reply_only_grows(s: TurnView, msgs: Seq<EventMsg>)
    ensures
        s.response matches Some(t) ==> run_turn(s, msgs).response matches Some(u)
            && t.is_prefix_of(u),
        s.response is None ==> run_turn(s, msgs).response is None,
    decreases msgs.len(),
{
    if msgs.len() > 0 {
        let next = next_turn_view(s, msgs[0]);
        law_reply_only_grows(next, msgs.drop_first());
        if s.response is Some {
            let t = s.response->0;
            let n = next.response->0;
            let u = run_turn(s, msgs).response->0;
            assert(t.is_prefix_of(n));
            assert(n.is_prefix_of(u));
            assert(t =~= u.subrange(0, t.len() as int)) by {
                assert forall|i: int| 0 <= i < t.len() implies t[i] == u[i] by {
                    assert(t[i] == n[i]);
                    assert(n[i] == u[i]);
                }
            }
        }
    }
}

/// Once a collected reply holds some text, only streamed fragments change
/// it: each is added at its end, in order; whole messages and the end of
/// the turn leave it as it is.
pub proof fn law_nonempty_reply_grows_by_fragments(s: TurnView, msgs: Seq<EventMsg>)
    requires
        s.response matches Some(t) && t.len() > 0,
    ensures
        run_turn(s, msgs).response == Some(s.response->0 + streamed_text(msgs)),
    decreases msgs.len(),
{
    let t = s.response->0;
    if msgs.len() == 0 {
        assert(t + Seq::<char>::empty() =~= t);
    } else {
        let next = next_turn_view(s, msgs[0]);
        assert(next.response == Some(t + delta_text(msgs[0])));
        law_nonempty_reply_grows_by_fragments(next, msgs.drop_first());
        assert((t + delta_text(msgs[0])) + streamed_text(msgs.drop_first()) =~= t + (delta_text(
            msgs[0],
        ) + streamed_text(msgs.drop_first())));
    }
}

/// Where only fragments of the agent's message arrive, the collected reply
/// is their concatenation, in order, after what was collected before.
pub proof fn law_fragments_concatenate(s: TurnView, msgs: Seq<EventMsg>)
    requires
        s.response is Some,
        forall|i: int|
            0 <= i < msgs.len() ==> (#[trigger] msgs[i] matches EventMsg::AgentMessageContentDelta {
                ..
            } || msgs[i] matches EventMsg::AgentMessageDelta { .. }),
    ensures
        run_turn(s, msgs).response == Some(s.response->0 + streamed_text(msgs)),
    decreases msgs.len(),
{
    let t = s.response->0;
    if msgs.len() == 0 {
        assert(t + Seq::<char>::empty() =~= t);
    } else {
        let next = next_turn_view(s, msgs[0]);
        assert(msgs[0] matches EventMsg::AgentMessageContentDelta { .. } || msgs[0] matches EventMsg::AgentMessageDelta { .. });
        assert(next.response == Some(t + delta_text(msgs[0])));
        let rest = msgs.drop_first();
        assert forall|i: int| 0 <= i < rest.len() implies (#[trigger] rest[i] matches EventMsg::AgentMessageContentDelta {
            ..
        } || rest[i] matches EventMsg::AgentMessageDelta { .. }) by {
            assert(rest[i] == msgs[i + 1]);
        }
        law_fragments_concatenate(next, rest);
        assert((t + delta_text(msgs[0])) + streamed_text(rest) =~= t + (delta_text(msgs[0])
            + streamed_text(rest)));
    }
}

} // verus!
