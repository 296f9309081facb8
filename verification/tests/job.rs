use good_morning::config::{Config, Setting, Settings};
use good_morning::dispatch::{prepare_dispatch, DispatchOutcome};
use good_morning::error::{
    DispatchFailure, GenerationFailure, JobError, MissingSetting, Stage, TransportFailure,
};
use good_morning::generation::{
    prepare_generation, Choice, GenerationOutcome, GenerationResponse,
};
use good_morning::job::{launch, start, step, Action, Event, JobState};
use good_morning::run::replay;

fn config() -> Config {
    Config {
        api_url: "https://api.example/v1/chat".to_string(),
        model: "model-x".to_string(),
        api_key: "secret".to_string(),
        webhook_url: "https://hooks.example/abc".to_string(),
        lang: "French".to_string(),
    }
}

fn given(value: &str) -> Setting {
    Setting { flag: Some(value.to_string()), env: None }
}

fn absent() -> Setting {
    Setting { flag: None, env: None }
}

fn settings() -> Settings {
    Settings {
        url: given("https://api.example/v1/chat"),
        model: given("model-x"),
        key: given("secret"),
        webhook: given("https://hooks.example/abc"),
        lang: given("French"),
    }
}

fn replied(texts: &[&str]) -> Event {
    let mut choices = Vec::new();
    for text in texts {
        choices.push(Choice { content: text.to_string() });
    }
    Event::GenerationDone(GenerationOutcome::Replied(GenerationResponse { choices }))
}

fn status(code: u16) -> Event {
    Event::DispatchDone(DispatchOutcome::Status(code))
}

fn expected_generation() -> Action {
    Action::Generate(prepare_generation(
        "https://api.example/v1/chat",
        "model-x",
        "secret",
        "French",
    ))
}

#[test]
fn start_asks_for_the_generation_call() {
    let (state, action) = start(config());
    assert_eq!(
        state,
        JobState::AwaitingGeneration { webhook_url: "https://hooks.example/abc".to_string() }
    );
    assert_eq!(action, expected_generation());
    assert!(!state.is_finished());
}

#[test]
fn launch_from_settings_starts_the_job() {
    assert_eq!(launch(settings()), start(config()));
}

#[test]
fn launch_without_credential_fails_before_any_call() {
    let mut s = settings();
    s.key = absent();
    let (state, action) = launch(s);
    assert_eq!(state, JobState::Failed(JobError::Configuration(MissingSetting::Credential)));
    assert_eq!(action, Action::Idle);
    assert!(state.is_finished());
}

#[test]
fn launch_without_webhook_fails_before_any_call() {
    let mut s = settings();
    s.webhook = absent();
    let (state, action) = launch(s);
    assert_eq!(state, JobState::Failed(JobError::Configuration(MissingSetting::WebhookUrl)));
    assert_eq!(action, Action::Idle);
}

#[test]
fn one_choice_and_success_status_deliver_the_choice() {
    let text = "Bonjour \u{00e0} tous! *Fun fact*: <honey> never spoils & \"stays\" good.\n";
    let (state, _) = start(config());
    let (state, action) = step(state, &replied(&[text]));
    assert_eq!(state, JobState::AwaitingDispatch);
    match &action {
        Action::Dispatch(call) => {
            assert_eq!(call.payload.text, text);
            assert_eq!(call.url, "https://hooks.example/abc");
            assert_eq!(call.timeout_secs, 10);
        },
        other => panic!("expected a dispatch, got {:?}", other),
    }
    let (state, action) = step(state, &status(200));
    assert_eq!(state, JobState::Succeeded);
    assert_eq!(action, Action::Idle);
    assert!(state.is_finished());
}

#[test]
fn several_choices_deliver_the_first() {
    let (state, _) = start(config());
    let (_, action) = step(state, &replied(&["one", "two"]));
    assert_eq!(action, Action::Dispatch(prepare_dispatch("https://hooks.example/abc", "one")));
}

#[test]
fn empty_choice_list_fails_without_dispatch() {
    let (state, _) = start(config());
    let (state, action) = step(state, &replied(&[]));
    assert_eq!(state, JobState::Failed(JobError::GenerationContent));
    assert_eq!(action, Action::Idle);
    let (state, actions) =
        replay(settings(), &vec![replied(&[]), status(200), replied(&["late"]), status(200)]);
    assert_eq!(state, JobState::Failed(JobError::GenerationContent));
    assert_eq!(actions.len(), 5);
    assert!(actions.iter().all(|a| !matches!(a, Action::Dispatch(_))));
}

#[test]
fn refused_dispatch_is_a_dispatch_stage_error() {
    for code in [199u16, 300, 302, 400, 404, 429, 500, 503] {
        let (state, actions) = replay(settings(), &vec![replied(&["hello"]), status(code)]);
        let error = JobError::DispatchTransport(DispatchFailure::Status(code));
        assert_eq!(state, JobState::Failed(error));
        assert_eq!(error.stage(), Stage::Dispatch);
        assert_ne!(error.stage(), Stage::Generation);
        assert_eq!(actions.len(), 3);
        assert_eq!(actions[2], Action::Idle);
    }
}

#[test]
fn dispatch_transport_failures_end_the_job() {
    let (state, _) = replay(
        settings(),
        &vec![replied(&["hello"]), Event::DispatchDone(DispatchOutcome::Failed(TransportFailure::Network))],
    );
    assert_eq!(state, JobState::Failed(JobError::DispatchTransport(DispatchFailure::Network)));
    let (state, _) = replay(
        settings(),
        &vec![replied(&["hello"]), Event::DispatchDone(DispatchOutcome::Failed(TransportFailure::Timeout))],
    );
    assert_eq!(state, JobState::Failed(JobError::DispatchTransport(DispatchFailure::Timeout)));
}

#[test]
fn two_runs_with_the_same_inputs_each_make_both_calls() {
    let events = vec![replied(&["hello"]), status(200)];
    let first = replay(settings(), &events);
    let second = replay(settings(), &events);
    assert_eq!(first, second);
    for (state, actions) in [first, second] {
        assert_eq!(state, JobState::Succeeded);
        assert_eq!(
            actions,
            vec![
                expected_generation(),
                Action::Dispatch(prepare_dispatch("https://hooks.example/abc", "hello")),
                Action::Idle,
            ]
        );
    }
}

#[test]
fn generation_timeout_fails_without_dispatch() {
    let timeout = Event::GenerationDone(GenerationOutcome::Failed(TransportFailure::Timeout));
    let (state, actions) = replay(settings(), &vec![timeout, status(200)]);
    let error = JobError::GenerationTransport(GenerationFailure::Timeout);
    assert_eq!(state, JobState::Failed(error));
    assert!(error.is_timeout());
    assert_eq!(error.stage(), Stage::Generation);
    assert_eq!(actions, vec![expected_generation(), Action::Idle, Action::Idle]);
}

#[test]
fn other_generation_failures_fail_without_dispatch() {
    let (state, action) = step(
        start(config()).0,
        &Event::GenerationDone(GenerationOutcome::Failed(TransportFailure::Network)),
    );
    assert_eq!(state, JobState::Failed(JobError::GenerationTransport(GenerationFailure::Network)));
    assert_eq!(action, Action::Idle);
    let (state, action) = step(start(config()).0, &Event::GenerationDone(GenerationOutcome::Unparseable));
    assert_eq!(
        state,
        JobState::Failed(JobError::GenerationTransport(GenerationFailure::Unparseable))
    );
    assert_eq!(action, Action::Idle);
}

#[test]
fn an_event_that_is_not_awaited_changes_nothing() {
    let (state, _) = start(config());
    let (after, action) = step(state.clone(), &status(200));
    assert_eq!(after, state);
    assert_eq!(action, Action::Idle);
    let (after, action) = step(JobState::AwaitingDispatch, &replied(&["again"]));
    assert_eq!(after, JobState::AwaitingDispatch);
    assert_eq!(action, Action::Idle);
}

#[test]
fn a_finished_job_stays_finished() {
    for event in [replied(&["x"]), replied(&[]), status(200), status(500)] {
        assert_eq!(step(JobState::Succeeded, &event), (JobState::Succeeded, Action::Idle));
        let failed = JobState::Failed(JobError::GenerationContent);
        assert_eq!(step(failed.clone(), &event), (failed, Action::Idle));
    }
}

#[test]
fn replay_of_no_event_is_the_launch() {
    let (state, actions) = replay(settings(), &Vec::new());
    assert_eq!((state, actions[0].clone()), launch(settings()));
    assert_eq!(actions.len(), 1);
}

#[test]
fn replay_of_a_misconfigured_job_asks_for_nothing() {
    let mut s = settings();
    s.key = absent();
    let (state, actions) = replay(s, &vec![replied(&["hello"]), status(200)]);
    assert_eq!(state, JobState::Failed(JobError::Configuration(MissingSetting::Credential)));
    assert_eq!(actions, vec![Action::Idle, Action::Idle, Action::Idle]);
}

#[test]
fn no_call_is_asked_for_twice() {
    let events = vec![
        replied(&["hello"]),
        replied(&["again"]),
        status(500),
        status(200),
        replied(&["late"]),
    ];
    let (state, actions) = replay(settings(), &events);
    assert_eq!(state, JobState::Failed(JobError::DispatchTransport(DispatchFailure::Status(500))));
    assert_eq!(actions.len(), 6);
    assert_eq!(actions.iter().filter(|a| matches!(a, Action::Generate(_))).count(), 1);
    assert_eq!(actions.iter().filter(|a| matches!(a, Action::Dispatch(_))).count(), 1);
    assert_eq!(actions[0], expected_generation());
    assert_eq!(actions[1], Action::Dispatch(prepare_dispatch("https://hooks.example/abc", "hello")));
}

#[test]
fn a_success_status_alone_does_not_make_a_success() {
    let (state, actions) = replay(settings(), &vec![status(200), status(204)]);
    assert_eq!(
        state,
        JobState::AwaitingGeneration { webhook_url: "https://hooks.example/abc".to_string() }
    );
    assert_eq!(actions, vec![expected_generation(), Action::Idle, Action::Idle]);
}
