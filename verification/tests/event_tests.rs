use codex_agent_loop::AgentError;
use codex_agent_loop::ElicitationAction;
use codex_agent_loop::Event;
use codex_agent_loop::EventFilter;
use codex_agent_loop::EventMsg;
use codex_agent_loop::EventOutcome;
use codex_agent_loop::FilteredEvent;
use codex_agent_loop::Op;
use codex_agent_loop::OpBuilder;
use codex_agent_loop::RequestId;
use codex_agent_loop::ReviewDecision;
use codex_agent_loop::TurnAbortReason;
use codex_agent_loop::TurnState;
use codex_agent_loop::UserInput;

fn ev(msg: EventMsg) -> Event {
    Event { id: "sub-1".to_string(), msg }
}

fn delta(text: &str) -> EventMsg {
    EventMsg::AgentMessageDelta { delta: text.to_string() }
}

fn content_delta(text: &str) -> EventMsg {
    EventMsg::AgentMessageContentDelta { delta: text.to_string() }
}

// ---- OpBuilder ----

#[test]
fn user_message_is_one_text_input() {
    assert_eq!(
        OpBuilder::user_message("Hello, agent!"),
        Op::UserInput { items: vec![UserInput::Text { text: "Hello, agent!".to_string() }] }
    );
}

#[test]
fn interrupt_op() {
    assert_eq!(OpBuilder::interrupt(), Op::Interrupt);
}

#[test]
fn approve_and_deny_exec() {
    assert_eq!(
        OpBuilder::approve_exec("call-7"),
        Op::ExecApproval { id: "call-7".to_string(), decision: ReviewDecision::Approved }
    );
    assert_eq!(
        OpBuilder::deny_exec("call-7"),
        Op::ExecApproval { id: "call-7".to_string(), decision: ReviewDecision::Denied }
    );
}

// ---- EventFilter ----

#[test]
fn filter_keeps_content_deltas() {
    let f = EventFilter::new();
    assert_eq!(f.filter(&ev(content_delta("Hel"))), Some(FilteredEvent::MessageDelta("Hel".to_string())));
}

#[test]
fn filter_turn_complete() {
    let f = EventFilter::new();
    assert_eq!(
        f.filter(&ev(EventMsg::TurnComplete { last_agent_message: Some("done".to_string()) })),
        Some(FilteredEvent::TurnComplete { last_message: Some("done".to_string()) })
    );
    assert_eq!(
        f.filter(&ev(EventMsg::TurnComplete { last_agent_message: None })),
        Some(FilteredEvent::TurnComplete { last_message: None })
    );
}

#[test]
fn filter_turn_aborted_names_reason() {
    let f = EventFilter::new();
    assert_eq!(
        f.filter(&ev(EventMsg::TurnAborted { reason: TurnAbortReason::Interrupted })),
        Some(FilteredEvent::TurnAborted { reason: "Interrupted".to_string() })
    );
    assert_eq!(
        f.filter(&ev(EventMsg::TurnAborted { reason: TurnAbortReason::ReviewEnded })),
        Some(FilteredEvent::TurnAborted { reason: "ReviewEnded".to_string() })
    );
}

#[test]
fn filter_error() {
    let f = EventFilter::new();
    assert_eq!(
        f.filter(&ev(EventMsg::Error { message: "boom".to_string() })),
        Some(FilteredEvent::Error("boom".to_string()))
    );
}

#[test]
fn filter_renders_approval_command() {
    let f = EventFilter::new();
    let msg = EventMsg::ExecApprovalRequest {
        call_id: "call-1".to_string(),
        command: vec!["ls".to_string(), "-la".to_string()],
    };
    assert_eq!(
        f.filter(&ev(msg)),
        Some(FilteredEvent::ApprovalRequest {
            command: "[\"ls\", \"-la\"]".to_string(),
            call_id: "call-1".to_string(),
        })
    );
}

#[test]
fn filter_items() {
    let f = EventFilter::default();
    assert_eq!(
        f.filter(&ev(EventMsg::ItemStarted { item: "AgentMessage".to_string() })),
        Some(FilteredEvent::ItemStarted("AgentMessage".to_string()))
    );
    assert_eq!(
        f.filter(&ev(EventMsg::ItemCompleted { item: "Reasoning".to_string() })),
        Some(FilteredEvent::ItemCompleted("Reasoning".to_string()))
    );
}

#[test]
fn filter_ignores_other_events() {
    let f = EventFilter::new();
    let ignored = vec![
        delta("x"),
        EventMsg::AgentMessage { message: "m".to_string() },
        EventMsg::Warning { message: "w".to_string() },
        EventMsg::StreamError { message: "s".to_string() },
        EventMsg::ApplyPatchApprovalRequest { call_id: "p".to_string() },
        EventMsg::ElicitationRequest { server_name: "srv".to_string(), id: RequestId::Integer(3) },
        EventMsg::Other,
    ];
    for msg in ignored {
        assert_eq!(f.filter(&ev(msg)), None);
    }
}

// ---- TurnState ----

#[test]
fn deltas_concatenate_into_reply() {
    let mut s = TurnState::collecting();
    assert_eq!(s.handle_event(ev(content_delta("Hel"))), Ok(EventOutcome::Continue));
    assert_eq!(s.handle_event(ev(delta("lo"))), Ok(EventOutcome::Continue));
    assert_eq!(s.handle_event(ev(EventMsg::Warning { message: "w".to_string() })), Ok(EventOutcome::Continue));
    assert_eq!(s.handle_event(ev(content_delta("!"))), Ok(EventOutcome::Continue));
    assert_eq!(s.response(), "Hello!");
}

#[test]
fn whole_message_does_not_replace_streamed_reply() {
    let mut s = TurnState::collecting();
    s.handle_event(ev(delta("streamed"))).unwrap();
    s.handle_event(ev(EventMsg::AgentMessage { message: "whole".to_string() })).unwrap();
    assert_eq!(
        s.handle_event(ev(EventMsg::TurnComplete { last_agent_message: Some("last".to_string()) })),
        Ok(EventOutcome::TurnComplete)
    );
    assert_eq!(s.response(), "streamed");
    assert_eq!(s.last_message, Some("whole".to_string()));
}

#[test]
fn whole_message_fills_empty_reply() {
    let mut s = TurnState::collecting();
    s.handle_event(ev(EventMsg::AgentMessage { message: "whole".to_string() })).unwrap();
    assert_eq!(s.response(), "whole");
    s.handle_event(ev(delta(" more"))).unwrap();
    assert_eq!(s.response(), "whole more");
}

#[test]
fn turn_complete_fills_empty_reply_with_last_agent_message() {
    let mut s = TurnState::collecting();
    assert_eq!(
        s.handle_event(ev(EventMsg::TurnComplete { last_agent_message: Some("4".to_string()) })),
        Ok(EventOutcome::TurnComplete)
    );
    assert_eq!(s.response(), "4");
}

#[test]
fn turn_complete_falls_back_to_last_message() {
    let mut s = TurnState::collecting();
    s.handle_event(ev(EventMsg::AgentMessage { message: String::new() })).unwrap();
    assert_eq!(s.response(), "");
    s.handle_event(ev(EventMsg::TurnComplete { last_agent_message: None })).unwrap();
    assert_eq!(s.response(), "");

    let mut t = TurnState { response_text: Some(String::new()), last_message: Some("earlier".to_string()) };
    t.handle_event(ev(EventMsg::TurnComplete { last_agent_message: None })).unwrap();
    assert_eq!(t.response(), "earlier");
}

#[test]
fn turn_complete_without_any_message_gives_empty_reply() {
    let mut s = TurnState::collecting();
    assert_eq!(
        s.handle_event(ev(EventMsg::TurnComplete { last_agent_message: None })),
        Ok(EventOutcome::TurnComplete)
    );
    assert_eq!(s.response(), "");
}

#[test]
fn observing_turn_collects_nothing() {
    let mut s = TurnState::observing();
    s.handle_event(ev(delta("x"))).unwrap();
    s.handle_event(ev(EventMsg::AgentMessage { message: "m".to_string() })).unwrap();
    s.handle_event(ev(EventMsg::TurnComplete { last_agent_message: Some("l".to_string()) })).unwrap();
    assert_eq!(s.response_text, None);
    assert_eq!(s.response(), "");
    assert_eq!(s.last_message, Some("m".to_string()));
}

#[test]
fn aborted_turn_fails() {
    let mut s = TurnState::collecting();
    s.handle_event(ev(delta("partial"))).unwrap();
    let r = s.handle_event(ev(EventMsg::TurnAborted { reason: TurnAbortReason::Replaced }));
    assert_eq!(r, Err(AgentError::TurnAborted(TurnAbortReason::Replaced)));
    assert_eq!(r.unwrap_err().message(), "Turn was aborted: Replaced");
    assert_eq!(s.response(), "partial");
}

#[test]
fn error_event_fails() {
    let mut s = TurnState::collecting();
    let r = s.handle_event(ev(EventMsg::Error { message: "quota exceeded".to_string() }));
    assert_eq!(r, Err(AgentError::TurnFailed("quota exceeded".to_string())));
    assert_eq!(r.unwrap_err().message(), "Error: quota exceeded");
}

#[test]
fn requests_are_approved() {
    let mut s = TurnState::collecting();
    let exec = EventMsg::ExecApprovalRequest { call_id: "c1".to_string(), command: vec!["rm".to_string()] };
    assert_eq!(s.handle_event(ev(exec)), Ok(EventOutcome::Submit(OpBuilder::approve_exec("c1"))));
    assert_eq!(
        s.handle_event(ev(EventMsg::ApplyPatchApprovalRequest { call_id: "p1".to_string() })),
        Ok(EventOutcome::Submit(Op::PatchApproval { id: "p1".to_string(), decision: ReviewDecision::Approved }))
    );
    assert_eq!(
        s.handle_event(ev(EventMsg::ElicitationRequest {
            server_name: "docs".to_string(),
            id: RequestId::Text("r9".to_string()),
        })),
        Ok(EventOutcome::Submit(Op::ResolveElicitation {
            server_name: "docs".to_string(),
            request_id: RequestId::Text("r9".to_string()),
            decision: ElicitationAction::Accept,
        }))
    );
    assert_eq!(s.response(), "");
}

#[test]
fn filter_and_handler_agree() {
    let f = EventFilter::new();
    let msgs = vec![
        content_delta("a"),
        delta("b"),
        EventMsg::AgentMessage { message: "m".to_string() },
        EventMsg::TurnComplete { last_agent_message: None },
        EventMsg::TurnAborted { reason: TurnAbortReason::Interrupted },
        EventMsg::Error { message: "e".to_string() },
        EventMsg::ExecApprovalRequest { call_id: "c".to_string(), command: vec![] },
        EventMsg::Other,
    ];
    for msg in msgs {
        let filtered = f.filter(&ev(msg.clone()));
        let outcome = TurnState::collecting().handle_event(ev(msg));
        assert_eq!(
            matches!(filtered, Some(FilteredEvent::TurnComplete { .. })),
            matches!(outcome, Ok(EventOutcome::TurnComplete))
        );
        match (&filtered, &outcome) {
            (Some(FilteredEvent::Error(m)), Err(e)) => assert_eq!(e.message(), format!("Error: {m}")),
            (Some(FilteredEvent::TurnAborted { reason }), Err(e)) => {
                assert_eq!(e.message(), format!("Turn was aborted: {reason}"))
            }
            (Some(FilteredEvent::ApprovalRequest { call_id, .. }), Ok(EventOutcome::Submit(op))) => {
                assert_eq!(*op, OpBuilder::approve_exec(call_id))
            }
            (_, Err(_)) => panic!("handler failed where the filter saw no failure"),
            _ => {}
        }
    }
}
