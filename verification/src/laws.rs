//! Laws that relate the event filter, the handling of a turn's events and
//! the operation builder, and laws on what each of these decisions is for.
use vstd::prelude::*;

use crate::adapters::filter_result;
use crate::adapters::FilteredEvent;
use crate::protocol::is_exec_approval;
use crate::session::is_white_space;
use crate::session::session_input_result;
use crate::session::trim_end;
use crate::session::trim_start;
use crate::session::trimmed;
use crate::session::SessionInput;
use crate::turn::next_turn_view;
use crate::turn::TurnView;
use crate::workspace::config_dir_workspace_result;
use crate::workspace::config_workspace_result;
use crate::workspace::path_file_name;
use crate::workspace::path_parent;
use crate::workspace::workspace_hint_result;
use crate::workspace::ConfigFileStatus;
use crate::workspace::WorkspaceHint;
use crate::protocol::EventMsg;
use crate::protocol::Op;
use crate::protocol::ReviewDecision;
use crate::turn::agent_error_message;
use crate::turn::turn_outcome;
use crate::turn::AgentError;
use crate::turn::EventOutcome;

verus! {

/// The event filter and the agent loop read events alike: the filter
/// reports a completed turn exactly where the loop ends the turn; an error
/// or an abort exactly where the loop fails, with the filter's text in the
/// loop's error; and a request for approval exactly where the loop answers
/// it, with the approval that `OpBuilder::approve_exec` builds for the
/// request's call id.
pub proof fn law_filter_agrees_with_turn_handling(
    msg: EventMsg,
    filtered: Option<FilteredEvent>,
    outcome: Result<EventOutcome, AgentError>,
)
    requires
        filter_result(msg, filtered),
        turn_outcome(msg, outcome),
    ensures
        (filtered matches Some(FilteredEvent::TurnComplete { .. })) <==> (outcome matches Ok(
            EventOutcome::TurnComplete,
        )),
        (filtered matches Some(FilteredEvent::Error(_)) || filtered matches Some(
            FilteredEvent::TurnAborted { .. },
        )) <==> outcome is Err,
        filtered matches Some(FilteredEvent::Error(m)) ==> outcome matches Err(e)
            && agent_error_message(e) == "Error: "@ + m@,
        filtered matches Some(FilteredEvent::TurnAborted { reason }) ==> outcome matches Err(e)
            && agent_error_message(e) == "Turn was aborted: "@ + reason@,
        filtered matches Some(FilteredEvent::ApprovalRequest { call_id, .. }) ==> outcome matches Ok(
            EventOutcome::Submit(op),
        ) && is_exec_approval(op, call_id@, ReviewDecision::Approved),
        (outcome matches Ok(EventOutcome::Submit(op)) && op matches Op::ExecApproval { .. })
            ==> filtered matches Some(FilteredEvent::ApprovalRequest { .. }),
{
}

/// Only the end of a turn, an abort, an error and the three requests (to
/// run a command, to apply a patch, for a tool server's input) change the
/// course of a turn. On every other event (message fragments and messages,
/// warnings, stream errors, item progress, anything else) the agent loop
/// neither submits an operation nor ends or fails the turn: it waits for
/// the next event.
pub proof fn law_other_events_continue_the_turn(
    msg: EventMsg,
    outcome: Result<EventOutcome, AgentError>,
)
    requires
        turn_outcome(msg, outcome),
        !(msg matches EventMsg::TurnComplete { .. }),
        !(msg matches EventMsg::TurnAborted { .. }),
        !(msg matches EventMsg::Error { .. }),
        !(msg matches EventMsg::ExecApprovalRequest { .. }),
        !(msg matches EventMsg::ApplyPatchApprovalRequest { .. }),
        !(msg matches EventMsg::ElicitationRequest { .. }),
    ensures
        outcome matches Ok(EventOutcome::Continue),
{
}

/// Every request is granted, for the very request that was made: a command
/// or a patch is approved under its call id, and a tool server's request
/// for input is accepted, under the server's name and the request's id.
pub proof fn law_requests_are_granted(msg: EventMsg, outcome: Result<EventOutcome, AgentError>)
    requires
        turn_outcome(msg, outcome),
    ensures
        msg matches EventMsg::ExecApprovalRequest { call_id, .. } ==> (outcome matches Ok(
            EventOutcome::Submit(Op::ExecApproval { id, decision }),
        ) && id@ == call_id@ && decision == ReviewDecision::Approved),
        msg matches EventMsg::ApplyPatchApprovalRequest { call_id } ==> (outcome matches Ok(
            EventOutcome::Submit(Op::PatchApproval { id, decision }),
        ) && id@ == call_id@ && decision == ReviewDecision::Approved),
        msg matches EventMsg::ElicitationRequest { server_name, id } ==> (outcome matches Ok(
            EventOutcome::Submit(Op::ResolveElicitation { server_name: s, request_id, decision }),
        ) && s@ == server_name@ && crate::protocol::same_request_id(request_id, id) && decision
            == crate::protocol::ElicitationAction::Accept),
{
}

/// A turn ends on its completion and fails on an abort or an error, and on
/// nothing else; a failure carries the abort's reason or the error's text.
pub proof fn law_turn_ends_and_fails(msg: EventMsg, outcome: Result<EventOutcome, AgentError>)
    requires
        turn_outcome(msg, outcome),
    ensures
        (outcome matches Ok(EventOutcome::TurnComplete)) <==> (msg matches EventMsg::TurnComplete {
            ..
        }),
        outcome is Err <==> (msg matches EventMsg::TurnAborted { .. } || msg matches EventMsg::Error {
            ..
        }),
        msg matches EventMsg::TurnAborted { reason } ==> (outcome matches Err(
            AgentError::TurnAborted(x),
        ) && x == reason),
        msg matches EventMsg::Error { message } ==> (outcome matches Err(AgentError::TurnFailed(m))
            && m@ == message@),
{
}

/// While nothing has been collected yet, a whole message becomes the reply
/// and is remembered; the end of the turn makes its own last message the
/// reply, or else the message remembered before.
pub proof fn law_empty_reply_is_filled(s: TurnView, msg: EventMsg)
    requires
        s.response == Some(Seq::<char>::empty()),
    ensures
        msg matches EventMsg::AgentMessage { message } ==> next_turn_view(s, msg).response == Some(
            message@,
        ) && next_turn_view(s, msg).last == Some(message@),
        msg matches EventMsg::TurnComplete { last_agent_message: Some(m) } ==> next_turn_view(
            s,
            msg,
        ).response == Some(m@),
        msg matches EventMsg::TurnComplete { last_agent_message: None } ==> next_turn_view(
            s,
            msg,
        ).response == Some(
            match s.last {
                Some(l) => l,
                None => Seq::<char>::empty(),
            },
        ),
{
}

/// Warnings, stream errors, item progress and the other events that carry
/// no part of the agent's message leave what the agent loop remembers as
/// it was.
pub proof fn law_non_message_events_change_nothing(s: TurnView, msg: EventMsg)
    requires
        !(msg matches EventMsg::AgentMessageContentDelta { .. }),
        !(msg matches EventMsg::AgentMessageDelta { .. }),
        !(msg matches EventMsg::AgentMessage { .. }),
        !(msg matches EventMsg::TurnComplete { .. }),
    ensures
        next_turn_view(s, msg) == s,
{
}

/// The filter passes every fragment of the agent's message on, whatever
/// its text, and unchanged: the fragments it reports rebuild the message.
pub proof fn law_filter_keeps_every_fragment(delta: String, filtered: Option<FilteredEvent>)
    requires
        filter_result(EventMsg::AgentMessageContentDelta { delta }, filtered),
    ensures
        filtered matches Some(FilteredEvent::MessageDelta(d)) && d@ == delta@,
{
}

/// A workspace named in the settings is the workspace, whether or not a
/// configuration file is named too.
pub proof fn law_explicit_workspace_wins(
    explicit: Seq<char>,
    config_file: Option<Seq<char>>,
    hint: WorkspaceHint,
)
    requires
        workspace_hint_result(Some(explicit), config_file, hint),
    ensures
        hint matches WorkspaceHint::Resolved(Some(w)) && w@ == explicit,
{
}

/// Without a workspace in the settings, a named configuration file is
/// always looked at, and without either there is no workspace.
pub proof fn law_config_file_decides_without_workspace(
    config_file: Option<Seq<char>>,
    hint: WorkspaceHint,
)
    requires
        workspace_hint_result(None, config_file, hint),
    ensures
        config_file matches Some(c) ==> hint matches WorkspaceHint::CheckConfigFile(x) && x@ == c,
        config_file is None ==> hint matches WorkspaceHint::Resolved(None),
{
}

/// Only a directory named exactly `.codex` is passed over: a configuration
/// file in any other directory makes that directory the workspace, and one
/// in a `.codex` directory makes that directory's parent the workspace.
pub proof fn law_only_codex_directory_is_passed_over(
    config_file: Seq<char>,
    r: Result<Option<String>, crate::workspace::WorkspaceError>,
)
    requires
        config_workspace_result(config_file, ConfigFileStatus::IsFile, r),
        path_parent(config_file) is Some,
    ensures
        path_file_name(path_parent(config_file)->0) != Some(".codex"@) ==> (r matches Ok(Some(w))
            && w@ == path_parent(config_file)->0),
        (path_file_name(path_parent(config_file)->0) == Some(".codex"@) && path_parent(
            path_parent(config_file)->0,
        ) is Some) ==> (r matches Ok(Some(w)) && w@ == path_parent(
            path_parent(config_file)->0,
        )->0),
{
}

/// The same, for the directory of a configuration file given by its parts:
/// the directory itself, unless it is named exactly `.codex`.
pub proof fn law_config_dir_is_workspace_unless_codex(
    parent: Seq<char>,
    parent_name: Option<Seq<char>>,
    grandparent: Option<Seq<char>>,
    r: Result<Option<String>, crate::workspace::WorkspaceError>,
)
    requires
        config_dir_workspace_result(Some(parent), parent_name, grandparent, r),
    ensures
        parent_name != Some(".codex"@) ==> (r matches Ok(Some(w)) && w@ == parent),
        parent_name == Some(".codex"@) && grandparent is Some ==> (r matches Ok(Some(w)) && w@
            == grandparent->0),
{
}

proof fn lemma_trim_start_first(text: Seq<char>)
    ensures
        trim_start(text).len() > 0 ==> !is_white_space(trim_start(text)[0]),
        trim_start(text).len() <= text.len(),
    decreases text.len(),
{
    if text.len() > 0 && is_white_space(text[0]) {
        lemma_trim_start_first(text.drop_first());
    }
}

proof fn lemma_trim_end_ends(text: Seq<char>)
    ensures
        trim_end(text).len() > 0 ==> !is_white_space(trim_end(text).last()),
        trim_end(text).len() <= text.len(),
        trim_end(text) =~= text.subrange(0, trim_end(text).len() as int),
        text.len() > 0 && !is_white_space(text[0]) ==> trim_end(text).len() > 0,
    decreases text.len(),
{
    if text.len() > 0 && is_white_space(text.last()) {
        let rest = text.drop_last();
        lemma_trim_end_ends(rest);
        if text.len() > 0 && !is_white_space(text[0]) {
            assert(rest.len() > 0) by {
                if rest.len() == 0 {
                    assert(text.len() == 1);
                    assert(text.last() == text[0]);
                }
            }
            assert(rest[0] == text[0]);
        }
        assert(trim_end(rest) =~= text.subrange(0, trim_end(rest).len() as int)) by {
            assert forall|i: int| 0 <= i < trim_end(rest).len() implies trim_end(rest)[i]
                == text[i] by {
                assert(trim_end(rest)[i] == rest.subrange(0, trim_end(rest).len() as int)[i]);
            }
        }
    }
}

/// A trimmed text has no whitespace at either end.
pub proof fn law_trimmed_has_no_white_space_ends(text: Seq<char>)
    ensures
        trimmed(text).len() > 0 ==> !is_white_space(trimmed(text)[0]) && !is_white_space(
            trimmed(text).last(),
        ),
{
    let s = trim_start(text);
    lemma_trim_start_first(text);
    lemma_trim_end_ends(s);
    if trimmed(text).len() > 0 {
        assert(trimmed(text)[0] == s[0]);
    }
}

/// A session ends at the end of the input exactly when nothing was read; a
/// line that was read and holds nothing but whitespace (a bare Enter) sends
/// nothing and ends nothing; a message that is sent is never empty and has
/// no whitespace at either end.
pub proof fn law_session_input_kinds(bytes_read: usize, line: Seq<char>, r: SessionInput)
    requires
        session_input_result(bytes_read, line, r),
    ensures
        (r matches SessionInput::EndOfInput) <==> bytes_read == 0,
        bytes_read > 0 && trimmed(line).len() == 0 ==> r matches SessionInput::Blank,
        r matches SessionInput::Message(m) ==> m@.len() > 0 && !is_white_space(m@[0])
            && !is_white_space(m@.last()),
{
    law_trimmed_has_no_white_space_ends(line);
}

} // verus!
