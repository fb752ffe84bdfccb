use llm_relay::dispatcher::{
    Action, Command, Dispatcher, Event, HEALTH_UNREACHABLE, HEALTH_UNREADABLE, HELP,
};
use llm_relay::inference::{Failure, InferenceRequest, InferenceResult};

/// How a stand-in backend behaves.
enum Backend {
    Unreachable,
    Unreadable(u16),
    Answers(u16, &'static str),
}

/// Drives the dispatcher as a faithful driver would and records every
/// action that it asks for.
fn handle(command: Command, backend: &Backend) -> Vec<Action> {
    let (mut dispatcher, mut action) = Dispatcher::begin(command);
    let mut asked = Vec::new();
    for _ in 0..100 {
        let event = match &action {
            Action::StartSignaler => Event::SignalerStarted,
            Action::StopSignaler => Event::SignalerStopped,
            Action::SendRequest(_) | Action::QueryHealth(_) => match backend {
                Backend::Unreachable => Event::Unreachable,
                Backend::Unreadable(code) => Event::Answered(*code),
                Backend::Answers(code, _) => Event::Answered(*code),
            },
            Action::ReadBody => match backend {
                Backend::Answers(_, body) => Event::BodyRead(body.to_string()),
                _ => Event::BodyUnreadable,
            },
            Action::Reply(_) => {
                asked.push(action);
                assert!(dispatcher.is_finished());
                return asked;
            }
        };
        asked.push(action);
        let (next, then) = dispatcher.step(event);
        dispatcher = next;
        action = then.expect("a faithful report is always answered");
    }
    panic!("the dispatcher did not finish");
}

fn infer(prompt: &str) -> Command {
    Command::Infer(prompt.to_string())
}

fn reply(text: &str) -> Action {
    Action::Reply(text.to_string())
}

fn send(prompt: &str) -> Action {
    Action::SendRequest(InferenceRequest::new(prompt.to_string()))
}

fn replies(actions: &[Action]) -> usize {
    actions.iter().filter(|a| matches!(a, Action::Reply(_))).count()
}

const HELLO: &str = r#"{"choices":[{"message":{"content":"hello"}}]}"#;

#[test]
fn help_is_answered_at_once() {
    let (dispatcher, action) = Dispatcher::begin(Command::Help);
    assert_eq!(dispatcher, Dispatcher::Finished);
    assert_eq!(action, reply(HELP));
    assert_eq!(handle(Command::Help, &Backend::Unreachable), vec![reply(HELP)]);
}

#[test]
fn help_text_names_the_three_commands() {
    assert_eq!(
        HELP,
        "This bot is 100% hosted on a 512MB Raspberry Pi Zero 2 W. Expect low performance and low quality.\n\nThese commands are supported:\n\n/qwen \u{2014} LLM request\n/help \u{2014} Prints this help\n/health \u{2014} Health check"
    );
}

#[test]
fn transport_failure_is_reported_once() {
    let actions = handle(infer("hi"), &Backend::Unreachable);
    assert_eq!(
        actions,
        vec![
            Action::StartSignaler,
            send("hi"),
            Action::StopSignaler,
            reply("An error occurred while sending the request."),
        ]
    );
    assert_eq!(replies(&actions), 1);
}

#[test]
fn unreadable_body_is_reported_once() {
    let actions = handle(infer("hi"), &Backend::Unreadable(200));
    assert_eq!(
        actions,
        vec![
            Action::StartSignaler,
            send("hi"),
            Action::ReadBody,
            Action::StopSignaler,
            reply("An error occurred while reading the response."),
        ]
    );
    assert_eq!(replies(&actions), 1);
}

#[test]
fn malformed_json_is_reported_once() {
    let actions = handle(infer("hi"), &Backend::Answers(200, "{\"choices\": [oops"));
    assert_eq!(
        actions,
        vec![
            Action::StartSignaler,
            send("hi"),
            Action::ReadBody,
            Action::StopSignaler,
            reply("An error occurred while parsing the response."),
        ]
    );
    assert_eq!(replies(&actions), 1);
}

#[test]
fn missing_content_path_is_reported_once() {
    let actions = handle(infer("hi"), &Backend::Answers(200, r#"{"choices":[{"message":{}}]}"#));
    assert_eq!(
        actions,
        vec![
            Action::StartSignaler,
            send("hi"),
            Action::ReadBody,
            Action::StopSignaler,
            reply("An error occurred while parsing the response."),
        ]
    );
    assert_eq!(replies(&actions), 1);
}

#[test]
fn well_formed_answer_is_relayed() {
    let actions = handle(infer("hi"), &Backend::Answers(200, HELLO));
    assert_eq!(
        actions,
        vec![
            Action::StartSignaler,
            send("hi"),
            Action::ReadBody,
            Action::StopSignaler,
            reply("hello"),
        ]
    );
    assert_eq!(replies(&actions), 1);
}

#[test]
fn the_http_status_of_an_inference_answer_is_not_looked_at() {
    let actions = handle(infer("hi"), &Backend::Answers(500, HELLO));
    assert_eq!(actions.last(), Some(&reply("hello")));
}

#[test]
fn repeating_an_exchange_gives_the_same_message() {
    let backends = [
        Backend::Unreachable,
        Backend::Unreadable(200),
        Backend::Answers(200, "nonsense"),
        Backend::Answers(200, "{}"),
        Backend::Answers(200, HELLO),
    ];
    for backend in &backends {
        let once = handle(infer("tell me a joke"), backend);
        let again = handle(infer("tell me a joke"), backend);
        assert_eq!(once, again);
        assert_eq!(once.last(), again.last());
    }
}

#[test]
fn the_request_carries_the_prompt() {
    let actions = handle(infer("why is the sky blue?"), &Backend::Answers(200, HELLO));
    match &actions[1] {
        Action::SendRequest(request) => {
            assert_eq!(request.url, "http://192.168.2.56:8080/v1/chat/completions");
            assert_eq!(request.prompt, "why is the sky blue?");
            assert_eq!(request.model, "amogus");
        }
        _ => panic!("the second action is the request"),
    }
}

#[test]
fn the_signaler_is_started_first_and_stopped_before_the_reply() {
    let backends = [
        Backend::Unreachable,
        Backend::Unreadable(200),
        Backend::Answers(200, "nonsense"),
        Backend::Answers(200, HELLO),
    ];
    for backend in &backends {
        let actions = handle(infer("hi"), backend);
        let n = actions.len();
        assert_eq!(actions[0], Action::StartSignaler);
        assert_eq!(actions[n - 2], Action::StopSignaler);
        assert!(matches!(actions[n - 1], Action::Reply(_)));
        assert_eq!(actions.iter().filter(|a| **a == Action::StartSignaler).count(), 1);
        assert_eq!(actions.iter().filter(|a| **a == Action::StopSignaler).count(), 1);
    }
}

#[test]
fn health_is_queried_and_answered() {
    let body = r#"{"status":"ok","slots_idle":3,"slots_processing":1}"#;
    assert_eq!(
        handle(Command::Health, &Backend::Answers(200, body)),
        vec![
            Action::QueryHealth("http://192.168.2.56:8080/health".to_string()),
            Action::ReadBody,
            reply("Everything is working fine. Slots idle: 3, Slots processing: 1"),
        ]
    );
}

#[test]
fn health_outcomes_are_relayed() {
    let said = |code: u16, body: &'static str| {
        handle(Command::Health, &Backend::Answers(code, body)).pop().unwrap()
    };
    assert_eq!(
        said(503, r#"{"status":"loading model"}"#),
        reply("The model is still being loaded. Please wait.")
    );
    assert_eq!(said(500, r#"{"status":"something else"}"#), reply("Unknown status: something else"));
    assert_eq!(said(404, "whatever"), reply("Unexpected status: 404"));
    assert_eq!(
        said(200, "whatever"),
        reply("An error occurred while parsing the health check response.")
    );
}

#[test]
fn health_transport_failures_are_reported() {
    assert_eq!(
        handle(Command::Health, &Backend::Unreachable),
        vec![
            Action::QueryHealth("http://192.168.2.56:8080/health".to_string()),
            reply("An error occurred while sending the health check request."),
        ]
    );
    assert_eq!(
        handle(Command::Health, &Backend::Unreadable(200)),
        vec![
            Action::QueryHealth("http://192.168.2.56:8080/health".to_string()),
            Action::ReadBody,
            reply("An error occurred while reading the health check response."),
        ]
    );
    assert_eq!(HEALTH_UNREACHABLE, "An error occurred while sending the health check request.");
    assert_eq!(HEALTH_UNREADABLE, "An error occurred while reading the health check response.");
}

#[test]
fn health_does_not_touch_the_signaler() {
    let actions = handle(Command::Health, &Backend::Answers(200, r#"{"status":"ok"}"#));
    assert!(!actions.contains(&Action::StartSignaler));
    assert!(!actions.contains(&Action::StopSignaler));
}

#[test]
fn each_step_moves_to_the_expected_state() {
    let (dispatcher, action) = Dispatcher::begin(infer("hi"));
    assert_eq!(dispatcher, Dispatcher::StartingSignaler("hi".to_string()));
    assert_eq!(action, Action::StartSignaler);
    let (dispatcher, action) = dispatcher.step(Event::SignalerStarted);
    assert_eq!(dispatcher, Dispatcher::Requesting);
    assert_eq!(action, Some(send("hi")));
    let (dispatcher, action) = dispatcher.step(Event::Answered(200));
    assert_eq!(dispatcher, Dispatcher::ReadingReply);
    assert_eq!(action, Some(Action::ReadBody));
    let (dispatcher, action) = dispatcher.step(Event::BodyRead(HELLO.to_string()));
    assert_eq!(
        dispatcher,
        Dispatcher::StoppingSignaler(InferenceResult::Text("hello".to_string()))
    );
    assert_eq!(action, Some(Action::StopSignaler));
    assert!(!dispatcher.is_finished());
    let (dispatcher, action) = dispatcher.step(Event::SignalerStopped);
    assert_eq!(dispatcher, Dispatcher::Finished);
    assert_eq!(action, Some(reply("hello")));
    assert!(dispatcher.is_finished());
}

#[test]
fn a_failed_send_keeps_its_reason_until_the_signaler_is_stopped() {
    let (dispatcher, _) = Dispatcher::begin(infer("hi"));
    let (dispatcher, _) = dispatcher.step(Event::SignalerStarted);
    let (dispatcher, action) = dispatcher.step(Event::Unreachable);
    assert_eq!(dispatcher, Dispatcher::StoppingSignaler(InferenceResult::Failure(Failure::Send)));
    assert_eq!(action, Some(Action::StopSignaler));
}

#[test]
fn a_report_that_was_not_waited_for_changes_nothing() {
    let (dispatcher, _) = Dispatcher::begin(infer("hi"));
    let (dispatcher, action) = dispatcher.step(Event::BodyRead(HELLO.to_string()));
    assert_eq!(dispatcher, Dispatcher::StartingSignaler("hi".to_string()));
    assert_eq!(action, None);
    let (dispatcher, action) = dispatcher.step(Event::SignalerStopped);
    assert_eq!(dispatcher, Dispatcher::StartingSignaler("hi".to_string()));
    assert_eq!(action, None);
    let (dispatcher, _) = dispatcher.step(Event::SignalerStarted);
    let (dispatcher, action) = dispatcher.step(Event::SignalerStarted);
    assert_eq!(dispatcher, Dispatcher::Requesting);
    assert_eq!(action, None);
    let (dispatcher, action) = Dispatcher::QueryingHealth.step(Event::BodyUnreadable);
    assert_eq!(dispatcher, Dispatcher::QueryingHealth);
    assert_eq!(action, None);
    let (dispatcher, action) = Dispatcher::ReadingHealth(200).step(Event::Answered(200));
    assert_eq!(dispatcher, Dispatcher::ReadingHealth(200));
    assert_eq!(action, None);
}

#[test]
fn nothing_follows_the_reply() {
    let events = vec![
        Event::SignalerStarted,
        Event::Unreachable,
        Event::Answered(200),
        Event::BodyUnreadable,
        Event::BodyRead(HELLO.to_string()),
        Event::SignalerStopped,
    ];
    let mut dispatcher = Dispatcher::Finished;
    for event in events {
        let (next, action) = dispatcher.step(event);
        assert_eq!(next, Dispatcher::Finished);
        assert_eq!(action, None);
        dispatcher = next;
    }
}

#[test]
fn no_run_of_reports_brings_a_second_reply() {
    let kinds: [fn() -> Event; 6] = [
        || Event::SignalerStarted,
        || Event::Unreachable,
        || Event::Answered(200),
        || Event::BodyUnreadable,
        || Event::BodyRead(HELLO.to_string()),
        || Event::SignalerStopped,
    ];
    let mut seed: u64 = 12345;
    for round in 0..300 {
        let command = match round % 3 {
            0 => infer("hi"),
            1 => Command::Health,
            _ => Command::Help,
        };
        let (mut dispatcher, first) = Dispatcher::begin(command);
        let mut count = usize::from(matches!(first, Action::Reply(_)));
        for _ in 0..25 {
            seed = seed.wrapping_mul(6364136223846793005).wrapping_add(1442695040888963407);
            let event = kinds[(seed >> 33) as usize % 6]();
            let (next, action) = dispatcher.step(event);
            dispatcher = next;
            if let Some(Action::Reply(_)) = action {
                count += 1;
            }
        }
        assert!(count <= 1);
    }
}
