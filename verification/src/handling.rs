//! What handling a command comes to when the dispatcher is driven
//! faithfully: the actions that are asked for, in order, for every command
//! and every way the backend can behave.

use crate::dispatcher::{
    after, first, ActionView, CommandView, DispatcherView, EventView, HEALTH_UNREACHABLE,
    HEALTH_UNREADABLE, HELP,
};
use crate::health::{health_address, outcome_of, status_of};
use crate::inference::{
    failure_text, reply_content, request_for, result_of, Failure, InferenceResultView,
};
use crate::json::document;
use vstd::prelude::*;

verus! {

/// How the backend behaves towards the one request of a command.
pub enum Backend {
    /// The request does not reach it.
    Unreachable,
    /// It answers with this HTTP status, but the body cannot be read.
    Unreadable(u16),
    /// It answers with this HTTP status and this body.
    Answers(u16, Seq<char>),
}

/// The report of a faithful driver on `action`, where the backend behaves as
/// `backend` says. A reply is the end and has no report.
pub open spec fn report(action: ActionView, backend: Backend) -> Option<EventView> {
    match action {
        ActionView::StartSignaler => Some(EventView::SignalerStarted),
        ActionView::StopSignaler => Some(EventView::SignalerStopped),
        ActionView::SendRequest(_) | ActionView::QueryHealth(_) => match backend {
            Backend::Unreachable => Some(EventView::Unreachable),
            Backend::Unreadable(code) => Some(EventView::Answered(code)),
            Backend::Answers(code, _) => Some(EventView::Answered(code)),
        },
        ActionView::ReadBody => match backend {
            Backend::Answers(_, body) => Some(EventView::BodyRead(body)),
            _ => Some(EventView::BodyUnreadable),
        },
        ActionView::Reply(_) => None,
    }
}

/// How many reports a state is from the end, at most.
pub open spec fn distance(state: DispatcherView) -> nat {
    match state {
        DispatcherView::StartingSignaler(_) => 4,
        DispatcherView::Requesting => 3,
        DispatcherView::ReadingReply => 2,
        DispatcherView::StoppingSignaler(_) => 1,
        DispatcherView::QueryingHealth => 2,
        DispatcherView::ReadingHealth(_) => 1,
        DispatcherView::Finished => 0,
    }
}

/// The actions from `action` on, where `action` was asked for on entering
/// `state` and every action is reported on faithfully.
pub open spec fn actions_from(state: DispatcherView, action: ActionView, backend: Backend) -> Seq<
    ActionView,
>
    decreases distance(state),
{
    match report(action, backend) {
        None => seq![action],
        Some(event) => {
            let (next, asked) = after(state, event);
            match asked {
                Some(then) => seq![action] + actions_from(next, then, backend),
                None => seq![action],
            }
        },
    }
}

/// All the actions of handling `command`, in order.
pub open spec fn actions_of(command: CommandView, backend: Backend) -> Seq<ActionView> {
    let (state, action) = first(command);
    actions_from(state, action, backend)
}

/// The result of the inference exchange with a backend.
pub open spec fn exchange(backend: Backend) -> InferenceResultView {
    match backend {
        Backend::Unreachable => InferenceResultView::Failure(Failure::Send),
        Backend::Unreadable(_) => InferenceResultView::Failure(Failure::Read),
        Backend::Answers(_, body) => result_of(document(body)),
    }
}

/// What the health command answers with a backend.
pub open spec fn health_reply(backend: Backend) -> Seq<char> {
    match backend {
        Backend::Unreachable => HEALTH_UNREACHABLE@,
        Backend::Unreadable(_) => HEALTH_UNREADABLE@,
        Backend::Answers(code, body) => outcome_of(code, status_of(document(body))).message(),
    }
}

/// The one message that handling `command` sends.
pub open spec fn reply_of(command: CommandView, backend: Backend) -> Seq<char> {
    match command {
        CommandView::Help => HELP@,
        CommandView::Health => health_reply(backend),
        CommandView::Infer(_) => exchange(backend).message(),
    }
}

/// How many of `actions` are replies.
pub open spec fn replies(actions: Seq<ActionView>) -> nat
    decreases actions.len(),
{
    if actions.len() == 0 {
        0
    } else {
        replies(actions.drop_last()) + if actions.last() is Reply {
            1nat
        } else {
            0nat
        }
    }
}

/// Help is answered at once, with the help text and nothing else.
pub proof fn lemma_help(backend: Backend)
    ensures
        actions_of(CommandView::Help, backend) == seq![ActionView::Reply(HELP@)],
{
}

/// A health command queries the backend, reads the body where the backend
/// answered, and replies.
pub proof fn lemma_health(backend: Backend)
    ensures
        actions_of(CommandView::Health, backend) == match backend {
            Backend::Unreachable => seq![
                ActionView::QueryHealth(health_address()),
                ActionView::Reply(health_reply(backend)),
            ],
            _ => seq![
                ActionView::QueryHealth(health_address()),
                ActionView::ReadBody,
                ActionView::Reply(health_reply(backend)),
            ],
        },
{
    let query = ActionView::QueryHealth(health_address());
    match backend {
        Backend::Unreachable => {
            let last = ActionView::Reply(HEALTH_UNREACHABLE@);
            assert(actions_from(DispatcherView::Finished, last, backend) == seq![last]);
            assert(seq![query] + seq![last] =~= seq![query, last]);
        },
        Backend::Unreadable(code) => {
            let last = ActionView::Reply(HEALTH_UNREADABLE@);
            assert(actions_from(DispatcherView::Finished, last, backend) == seq![last]);
            assert(actions_from(DispatcherView::ReadingHealth(code), ActionView::ReadBody, backend)
                == seq![ActionView::ReadBody] + seq![last]);
            assert(seq![query] + (seq![ActionView::ReadBody] + seq![last]) =~= seq![
                query,
                ActionView::ReadBody,
                last,
            ]);
        },
        Backend::Answers(code, body) => {
            let last = ActionView::Reply(health_reply(backend));
            assert(actions_from(DispatcherView::Finished, last, backend) == seq![last]);
            assert(actions_from(DispatcherView::ReadingHealth(code), ActionView::ReadBody, backend)
                == seq![ActionView::ReadBody] + seq![last]);
            assert(seq![query] + (seq![ActionView::ReadBody] + seq![last]) =~= seq![
                query,
                ActionView::ReadBody,
                last,
            ]);
        },
    }
}

/// An inference command starts the signaler, sends the request that carries
/// the prompt, reads the body where the backend answered, stops the signaler
/// whatever came of the call, and only then replies: with the text of the
/// exchange's result, be it the model's reply or a failure.
pub proof fn lemma_infer(prompt: Seq<char>, backend: Backend)
    ensures
        actions_of(CommandView::Infer(prompt), backend) == match backend {
            Backend::Unreachable => seq![
                ActionView::StartSignaler,
                ActionView::SendRequest(request_for(prompt)),
                ActionView::StopSignaler,
                ActionView::Reply(exchange(backend).message()),
            ],
            _ => seq![
                ActionView::StartSignaler,
                ActionView::SendRequest(request_for(prompt)),
                ActionView::ReadBody,
                ActionView::StopSignaler,
                ActionView::Reply(exchange(backend).message()),
            ],
        },
{
    let start = ActionView::StartSignaler;
    let send = ActionView::SendRequest(request_for(prompt));
    let read = ActionView::ReadBody;
    let stop = ActionView::StopSignaler;
    let result = exchange(backend);
    let last = ActionView::Reply(result.message());
    assert(actions_from(DispatcherView::Finished, last, backend) == seq![last]);
    assert(actions_from(DispatcherView::StoppingSignaler(result), stop, backend) == seq![stop]
        + seq![last]);
    match backend {
        Backend::Unreachable => {
            assert(actions_from(DispatcherView::Requesting, send, backend) == seq![send] + (
            seq![stop] + seq![last]));
            assert(seq![start] + (seq![send] + (seq![stop] + seq![last])) =~= seq![
                start,
                send,
                stop,
                last,
            ]);
        },
        _ => {
            assert(actions_from(DispatcherView::ReadingReply, read, backend) == seq![read] + (
            seq![stop] + seq![last]));
            assert(actions_from(DispatcherView::Requesting, send, backend) == seq![send] + (
            seq![read] + (seq![stop] + seq![last])));
            assert(seq![start] + (seq![send] + (seq![read] + (seq![stop] + seq![last]))) =~= seq![
                start,
                send,
                read,
                stop,
                last,
            ]);
        },
    }
}

/// Every command ends in exactly one message: the last action is the reply
/// that the command owes, and no action before it is a reply.
pub proof fn lemma_exactly_one_reply(command: CommandView, backend: Backend)
    ensures
        actions_of(command, backend).len() >= 1,
        actions_of(command, backend).last() == ActionView::Reply(reply_of(command, backend)),
        replies(actions_of(command, backend)) == 1,
        forall|i: int|
            0 <= i < actions_of(command, backend).len() - 1 ==> !(#[trigger] actions_of(
                command,
                backend,
            )[i] is Reply),
{
    let actions = actions_of(command, backend);
    match command {
        CommandView::Help => {
            lemma_help(backend);
        },
        CommandView::Health => {
            lemma_health(backend);
        },
        CommandView::Infer(prompt) => {
            lemma_infer(prompt, backend);
        },
    }
    lemma_count_replies(actions);
}

/// A sequence whose last action is its only reply holds one reply.
proof fn lemma_count_replies(actions: Seq<ActionView>)
    requires
        actions.len() >= 1,
        actions.last() is Reply,
        forall|i: int| 0 <= i < actions.len() - 1 ==> !(#[trigger] actions[i] is Reply),
    ensures
        replies(actions) == 1,
{
    lemma_no_replies(actions.drop_last());
}

/// A sequence without a reply holds none.
proof fn lemma_no_replies(actions: Seq<ActionView>)
    requires
        forall|i: int| 0 <= i < actions.len() ==> !(#[trigger] actions[i] is Reply),
    ensures
        replies(actions) == 0,
    decreases actions.len(),
{
    if actions.len() > 0 {
        lemma_no_replies(actions.drop_last());
    }
}

/// The signaler guards the whole inference call: it is started before the
/// request is sent, it is stopped after the last action of the call, on the
/// failing paths as on the good one, and it is started and stopped once.
pub proof fn lemma_signaler_guards_call(prompt: Seq<char>, backend: Backend)
    ensures
        ({
            let actions = actions_of(CommandView::Infer(prompt), backend);
            let stop = actions.len() - 2;
            &&& actions.len() >= 4
            &&& actions[0] is StartSignaler
            &&& actions[1] is SendRequest
            &&& actions[stop] is StopSignaler
            &&& actions[stop + 1] is Reply
            &&& forall|i: int| 0 < i < actions.len() ==> !(#[trigger] actions[i] is StartSignaler)
            &&& forall|i: int|
                0 <= i < actions.len() && i != stop ==> !(#[trigger] actions[i] is StopSignaler)
            &&& forall|i: int|
                0 <= i < actions.len() && (actions[i] is SendRequest || actions[i] is ReadBody)
                    ==> 0 < i < stop
        }),
{
    lemma_infer(prompt, backend);
}

/// Each failure of the inference call is told to the user in its own words,
/// and a call that brings a reply text is answered with that text.
pub proof fn lemma_infer_reply(prompt: Seq<char>, backend: Backend)
    ensures
        backend is Unreachable ==> reply_of(CommandView::Infer(prompt), backend) == failure_text(
            Failure::Send,
        ),
        backend is Unreadable ==> reply_of(CommandView::Infer(prompt), backend) == failure_text(
            Failure::Read,
        ),
        backend matches Backend::Answers(_, body) ==> match document(body) {
            None => reply_of(CommandView::Infer(prompt), backend) == failure_text(Failure::Parse),
            Some(doc) => match reply_content(doc) {
                None => reply_of(CommandView::Infer(prompt), backend) == failure_text(
                    Failure::Shape,
                ),
                Some(text) => reply_of(CommandView::Infer(prompt), backend) == text,
            },
        },
{
}

/// Handling is repeatable: the same command against the same behaviour of
/// the backend asks for the same actions and sends the same message.
pub proof fn lemma_same_exchange_same_reply(
    first_command: CommandView,
    second_command: CommandView,
    first_backend: Backend,
    second_backend: Backend,
)
    requires
        first_command == second_command,
        first_backend == second_backend,
    ensures
        actions_of(first_command, first_backend) == actions_of(second_command, second_backend),
        reply_of(first_command, first_backend) == reply_of(second_command, second_backend),
{
}

/// The message of an inference does not depend on the prompt once the
/// backend's behaviour is given.
pub proof fn lemma_reply_follows_backend(one: Seq<char>, other: Seq<char>, backend: Backend)
    ensures
        reply_of(CommandView::Infer(one), backend) == reply_of(CommandView::Infer(other), backend),
{
}

/// How many replies a dispatcher in `state` asks for over `events`, whatever
/// the events are.
pub open spec fn replies_over(state: DispatcherView, events: Seq<EventView>) -> nat
    decreases events.len(),
{
    if events.len() == 0 {
        0
    } else {
        let (next, asked) = after(state, events[0]);
        replies_over(next, events.drop_first()) + if asked matches Some(action) && action is Reply {
            1nat
        } else {
            0nat
        }
    }
}

/// However the driver behaves, a dispatcher never asks for a second message:
/// over any events at all it asks for at most one reply, and for none once it
/// has finished.
pub proof fn lemma_never_two_replies(state: DispatcherView, events: Seq<EventView>)
    ensures
        replies_over(state, events) <= 1,
        state is Finished ==> replies_over(state, events) == 0,
    decreases events.len(),
{
    if events.len() > 0 {
        let (next, asked) = after(state, events[0]);
        lemma_never_two_replies(next, events.drop_first());
    }
}

/// The same, from the start of a command: the first action and all that
/// follow hold at most one reply.
pub proof fn lemma_command_never_two_replies(command: CommandView, events: Seq<EventView>)
    ensures
        replies_over(first(command).0, events) + if first(command).1 is Reply {
            1nat
        } else {
            0nat
        } <= 1,
{
    lemma_never_two_replies(first(command).0, events);
}

} // verus!
