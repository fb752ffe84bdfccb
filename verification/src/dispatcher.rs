//! The command dispatcher: for one chat command it decides, step by step,
//! what is done next, and ends by sending exactly one message. The dispatcher
//! only decides. Its driver carries each action out and reports back what
//! happened.

use crate::health::{check_health, health_address, health_url, outcome_of, status_of};
use crate::inference::{
    read_reply, request_for, result_of, Failure, InferenceRequest, InferenceRequestView,
    InferenceResult, InferenceResultView,
};
use crate::json::document;
use vstd::prelude::*;
use vstd::string::StringExecFns;

verus! {

/// What the help command answers.
pub const HELP: &'static str =
    "This bot is 100% hosted on a 512MB Raspberry Pi Zero 2 W. Expect low performance and low quality.\n\nThese commands are supported:\n\n/qwen — LLM request\n/help — Prints this help\n/health — Health check";

/// What the user is told when the health query did not reach the backend.
pub const HEALTH_UNREACHABLE: &'static str =
    "An error occurred while sending the health check request.";

/// What the user is told when the body of the health answer could not be
/// read.
pub const HEALTH_UNREADABLE: &'static str =
    "An error occurred while reading the health check response.";

/// One parsed chat command.
#[derive(Debug, PartialEq, Eq)]
pub enum Command {
    /// Ask the model; the text is the prompt.
    Infer(String),
    /// Show the commands.
    Help,
    /// Ask the backend how it is.
    Health,
}

/// The mathematical value of a [`Command`].
pub enum CommandView {
    Infer(Seq<char>),
    Help,
    Health,
}

impl View for Command {
    type V = CommandView;

    open spec fn view(&self) -> CommandView {
        match self {
            Command::Infer(prompt) => CommandView::Infer(prompt@),
            Command::Help => CommandView::Help,
            Command::Health => CommandView::Health,
        }
    }
}

/// What the driver is asked to do.
#[derive(Debug, PartialEq, Eq)]
pub enum Action {
    /// Start the liveness signaler for the conversation.
    StartSignaler,
    /// Post the inference request and wait for the backend to answer.
    SendRequest(InferenceRequest),
    /// Read the body of the answer that arrived.
    ReadBody,
    /// Raise the signaler's cancellation flag.
    StopSignaler,
    /// Get this address and wait for the backend to answer.
    QueryHealth(String),
    /// Send this message to the conversation. Nothing follows it.
    Reply(String),
}

/// The mathematical value of an [`Action`].
pub enum ActionView {
    StartSignaler,
    SendRequest(InferenceRequestView),
    ReadBody,
    StopSignaler,
    QueryHealth(Seq<char>),
    Reply(Seq<char>),
}

impl View for Action {
    type V = ActionView;

    open spec fn view(&self) -> ActionView {
        match self {
            Action::StartSignaler => ActionView::StartSignaler,
            Action::SendRequest(request) => ActionView::SendRequest(request@),
            Action::ReadBody => ActionView::ReadBody,
            Action::StopSignaler => ActionView::StopSignaler,
            Action::QueryHealth(url) => ActionView::QueryHealth(url@),
            Action::Reply(text) => ActionView::Reply(text@),
        }
    }
}

/// The view of an action that may be missing.
pub open spec fn action_view(action: Option<Action>) -> Option<ActionView> {
    match action {
        Some(action) => Some(action@),
        None => None,
    }
}

/// What the driver reports after an action.
#[derive(Debug, PartialEq, Eq)]
pub enum Event {
    /// The signaler runs.
    SignalerStarted,
    /// The request did not reach the backend.
    Unreachable,
    /// The backend answered with this HTTP status.
    Answered(u16),
    /// The body of the answer could not be read.
    BodyUnreadable,
    /// The body of the answer, as text.
    BodyRead(String),
    /// The signaler's flag is raised.
    SignalerStopped,
}

/// The mathematical value of an [`Event`].
pub enum EventView {
    SignalerStarted,
    Unreachable,
    Answered(u16),
    BodyUnreadable,
    BodyRead(Seq<char>),
    SignalerStopped,
}

impl View for Event {
    type V = EventView;

    open spec fn view(&self) -> EventView {
        match self {
            Event::SignalerStarted => EventView::SignalerStarted,
            Event::Unreachable => EventView::Unreachable,
            Event::Answered(code) => EventView::Answered(*code),
            Event::BodyUnreadable => EventView::BodyUnreadable,
            Event::BodyRead(body) => EventView::BodyRead(body@),
            Event::SignalerStopped => EventView::SignalerStopped,
        }
    }
}

/// How far the handling of one command has come. Each state but the last
/// waits for the report on the action that led to it.
#[derive(Debug, PartialEq, Eq)]
pub enum Dispatcher {
    /// An inference was asked for and the signaler is being started; the
    /// prompt waits.
    StartingSignaler(String),
    /// The signaler runs and the inference request is on its way.
    Requesting,
    /// The signaler runs and the body of the answer is being read.
    ReadingReply,
    /// The inference call has resolved and the signaler is being stopped;
    /// the result waits.
    StoppingSignaler(InferenceResult),
    /// The health query is on its way.
    QueryingHealth,
    /// The backend answered the health query with this HTTP status and the
    /// body is being read.
    ReadingHealth(u16),
    /// The one message has been handed out.
    Finished,
}

/// The mathematical value of a [`Dispatcher`].
pub enum DispatcherView {
    StartingSignaler(Seq<char>),
    Requesting,
    ReadingReply,
    StoppingSignaler(InferenceResultView),
    QueryingHealth,
    ReadingHealth(u16),
    Finished,
}

impl View for Dispatcher {
    type V = DispatcherView;

    open spec fn view(&self) -> DispatcherView {
        match self {
            Dispatcher::StartingSignaler(prompt) => DispatcherView::StartingSignaler(prompt@),
            Dispatcher::Requesting => DispatcherView::Requesting,
            Dispatcher::ReadingReply => DispatcherView::ReadingReply,
            Dispatcher::StoppingSignaler(result) => DispatcherView::StoppingSignaler(result@),
            Dispatcher::QueryingHealth => DispatcherView::QueryingHealth,
            Dispatcher::ReadingHealth(code) => DispatcherView::ReadingHealth(*code),
            Dispatcher::Finished => DispatcherView::Finished,
        }
    }
}

/// The state and the first action for a command.
pub open spec fn first(command: CommandView) -> (DispatcherView, ActionView) {
    match command {
        CommandView::Help => (DispatcherView::Finished, ActionView::Reply(HELP@)),
        CommandView::Health => (
            DispatcherView::QueryingHealth,
            ActionView::QueryHealth(health_address()),
        ),
        CommandView::Infer(prompt) => (
            DispatcherView::StartingSignaler(prompt),
            ActionView::StartSignaler,
        ),
    }
}

/// The state and the action that follow `event` in `state`. An event that
/// does not answer the action that `state` waits on changes nothing and asks
/// for nothing.
pub open spec fn after(state: DispatcherView, event: EventView) -> (
    DispatcherView,
    Option<ActionView>,
) {
    match (state, event) {
        (DispatcherView::StartingSignaler(prompt), EventView::SignalerStarted) => (
            DispatcherView::Requesting,
            Some(ActionView::SendRequest(request_for(prompt))),
        ),
        (DispatcherView::Requesting, EventView::Unreachable) => (
            DispatcherView::StoppingSignaler(InferenceResultView::Failure(Failure::Send)),
            Some(ActionView::StopSignaler),
        ),
        (DispatcherView::Requesting, EventView::Answered(_)) => (
            DispatcherView::ReadingReply,
            Some(ActionView::ReadBody),
        ),
        (DispatcherView::ReadingReply, EventView::BodyUnreadable) => (
            DispatcherView::StoppingSignaler(InferenceResultView::Failure(Failure::Read)),
            Some(ActionView::StopSignaler),
        ),
        (DispatcherView::ReadingReply, EventView::BodyRead(body)) => (
            DispatcherView::StoppingSignaler(result_of(document(body))),
            Some(ActionView::StopSignaler),
        ),
        (DispatcherView::StoppingSignaler(result), EventView::SignalerStopped) => (
            DispatcherView::Finished,
            Some(ActionView::Reply(result.message())),
        ),
        (DispatcherView::QueryingHealth, EventView::Unreachable) => (
            DispatcherView::Finished,
            Some(ActionView::Reply(HEALTH_UNREACHABLE@)),
        ),
        (DispatcherView::QueryingHealth, EventView::Answered(code)) => (
            DispatcherView::ReadingHealth(code),
            Some(ActionView::ReadBody),
        ),
        (DispatcherView::ReadingHealth(_), EventView::BodyUnreadable) => (
            DispatcherView::Finished,
            Some(ActionView::Reply(HEALTH_UNREADABLE@)),
        ),
        (DispatcherView::ReadingHealth(code), EventView::BodyRead(body)) => (
            DispatcherView::Finished,
            Some(ActionView::Reply(outcome_of(code, status_of(document(body))).message())),
        ),
        _ => (state, None),
    }
}

impl Dispatcher {
    /// Takes a command up: the state to go on from, and the first action.
    pub fn begin(command: Command) -> (step: (Dispatcher, Action))
        ensures
            (step.0@, step.1@) == first(command@),
    {
        match command {
            Command::Help => (Dispatcher::Finished, Action::Reply(String::from_str(HELP))),
            Command::Health => (Dispatcher::QueryingHealth, Action::QueryHealth(health_url())),
            Command::Infer(prompt) => (Dispatcher::StartingSignaler(prompt), Action::StartSignaler),
        }
    }

    /// Takes the report on the last action and decides what is done next.
    /// `None` says that nothing is to be done: the command is finished, or
    /// the event is not the report that was waited for.
    pub fn step(self, event: Event) -> (step: (Dispatcher, Option<Action>))
        ensures
            (step.0@, action_view(step.1)) == after(self@, event@),
    {
        match self {
            Dispatcher::StartingSignaler(prompt) => match event {
                Event::SignalerStarted => (
                    Dispatcher::Requesting,
                    Some(Action::SendRequest(InferenceRequest::new(prompt))),
                ),
                _ => (Dispatcher::StartingSignaler(prompt), None),
            },
            Dispatcher::Requesting => match event {
                Event::Unreachable => (
                    Dispatcher::StoppingSignaler(InferenceResult::Failure(Failure::Send)),
                    Some(Action::StopSignaler),
                ),
                Event::Answered(_) => (Dispatcher::ReadingReply, Some(Action::ReadBody)),
                _ => (Dispatcher::Requesting, None),
            },
            Dispatcher::ReadingReply => match event {
                Event::BodyUnreadable => (
                    Dispatcher::StoppingSignaler(InferenceResult::Failure(Failure::Read)),
                    Some(Action::StopSignaler),
                ),
                Event::BodyRead(body) => (
                    Dispatcher::StoppingSignaler(read_reply(body.as_str())),
                    Some(Action::StopSignaler),
                ),
                _ => (Dispatcher::ReadingReply, None),
            },
            Dispatcher::StoppingSignaler(result) => match event {
                Event::SignalerStopped => (
                    Dispatcher::Finished,
                    Some(Action::Reply(result.into_message())),
                ),
                _ => (Dispatcher::StoppingSignaler(result), None),
            },
            Dispatcher::QueryingHealth => match event {
                Event::Unreachable => (
                    Dispatcher::Finished,
                    Some(Action::Reply(String::from_str(HEALTH_UNREACHABLE))),
                ),
                Event::Answered(code) => (Dispatcher::ReadingHealth(code), Some(Action::ReadBody)),
                _ => (Dispatcher::QueryingHealth, None),
            },
            Dispatcher::ReadingHealth(code) => match event {
                Event::BodyUnreadable => (
                    Dispatcher::Finished,
                    Some(Action::Reply(String::from_str(HEALTH_UNREADABLE))),
                ),
                Event::BodyRead(body) => (
                    Dispatcher::Finished,
                    Some(Action::Reply(check_health(code, body.as_str()).message())),
                ),
                _ => (Dispatcher::ReadingHealth(code), None),
            },
            Dispatcher::Finished => (Dispatcher::Finished, None),
        }
    }

    /// Whether the one message has been handed out.
    pub fn is_finished(&self) -> (finished: bool)
        ensures
            finished == (self@ == DispatcherView::Finished),
    {
        match self {
            Dispatcher::Finished => true,
            _ => false,
        }
    }
}

} // verus!
