//! The job as a state machine: which outbound call comes next, and how the
//! job ends. The caller makes each call and reports how it ended.

use vstd::prelude::*;
use crate::config::{resolved, Config, ConfigView, Settings, SettingsView};
use crate::dispatch::{
    dispatch_call, dispatch_verdict, judge_dispatch, prepare_dispatch, DispatchCall,
    DispatchCallView, DispatchOutcome,
};
use crate::error::JobError;
use crate::generation::{
    generation_call, generation_verdict, judge_generation, prepare_generation, GenerationCall,
    GenerationCallView, GenerationOutcome, GenerationOutcomeView,
};

verus! {

/// Where a job stands.
#[derive(Clone, Debug, PartialEq, Eq)]
pub enum JobState {
    /// The generation call is under way; the webhook is kept for afterwards.
    AwaitingGeneration { webhook_url: String },
    /// The dispatch call is under way.
    AwaitingDispatch,
    /// Both calls succeeded.
    Succeeded,
    /// The job ended with this error.
    Failed(JobError),
}

/// A state as contracts see it.
pub enum JobStateView {
    AwaitingGeneration { webhook_url: Seq<char> },
    AwaitingDispatch,
    Succeeded,
    Failed(JobError),
}

impl View for JobState {
    type V = JobStateView;

    open spec fn view(&self) -> JobStateView {
        match self {
            JobState::AwaitingGeneration { webhook_url } => JobStateView::AwaitingGeneration {
                webhook_url: webhook_url@,
            },
            JobState::AwaitingDispatch => JobStateView::AwaitingDispatch,
            JobState::Succeeded => JobStateView::Succeeded,
            JobState::Failed(error) => JobStateView::Failed(*error),
        }
    }
}

impl JobStateView {
    /// Whether the job is over, one way or the other.
    pub open spec fn finished(self) -> bool {
        self is Succeeded || self is Failed
    }
}

impl JobState {
    /// Whether the job is over, one way or the other.
    pub fn is_finished(&self) -> (yes: bool)
        ensures
            yes == self@.finished(),
    {
        match self {
            JobState::Succeeded => true,
            JobState::Failed(_) => true,
            _ => false,
        }
    }
}

/// What the caller reports back to the job.
#[derive(Clone, Debug, PartialEq, Eq)]
pub enum Event {
    GenerationDone(GenerationOutcome),
    DispatchDone(DispatchOutcome),
}

/// An event as contracts see it.
pub enum EventView {
    GenerationDone(GenerationOutcomeView),
    DispatchDone(DispatchOutcome),
}

impl View for Event {
    type V = EventView;

    open spec fn view(&self) -> EventView {
        match self {
            Event::GenerationDone(outcome) => EventView::GenerationDone(outcome@),
            Event::DispatchDone(outcome) => EventView::DispatchDone(*outcome),
        }
    }
}

/// What the job asks of the caller.
#[derive(Clone, Debug, PartialEq, Eq)]
pub enum Action {
    /// Make the generation call and report how it ended.
    Generate(GenerationCall),
    /// Make the dispatch call and report how it ended.
    Dispatch(DispatchCall),
    /// Make no call.
    Idle,
}

/// An action as contracts see it.
pub enum ActionView {
    Generate(GenerationCallView),
    Dispatch(DispatchCallView),
    Idle,
}

impl View for Action {
    type V = ActionView;

    open spec fn view(&self) -> ActionView {
        match self {
            Action::Generate(call) => ActionView::Generate(call@),
            Action::Dispatch(call) => ActionView::Dispatch(call@),
            Action::Idle => ActionView::Idle,
        }
    }
}

impl ActionView {
    /// Whether the action is an outbound call.
    pub open spec fn is_call(self) -> bool {
        self is Generate || self is Dispatch
    }
}

/// How a job with a configuration begins: waiting for the generation call
/// that it asks for.
pub open spec fn started(config: ConfigView) -> (JobStateView, ActionView) {
    (
        JobStateView::AwaitingGeneration { webhook_url: config.webhook_url },
        ActionView::Generate(
            generation_call(config.api_url, config.model, config.api_key, config.lang),
        ),
    )
}

/// How a job begins from the settings as supplied: as `started` says where
/// they resolve, and failed with nothing asked for where they do not.
pub open spec fn launched(settings: SettingsView) -> (JobStateView, ActionView) {
    match resolved(settings) {
        Ok(config) => started(config),
        Err(error) => (JobStateView::Failed(error), ActionView::Idle),
    }
}

/// The job's one rule of progress. A job that awaits the generation call
/// and hears how it ended goes on to dispatch the greeting, or fails. A job
/// that awaits the dispatch call and hears how it ended succeeds, or fails.
/// Any other event leaves the job as it is and asks for nothing.
pub open spec fn next(state: JobStateView, event: EventView) -> (JobStateView, ActionView) {
    match (state, event) {
        (JobStateView::AwaitingGeneration { webhook_url }, EventView::GenerationDone(outcome)) => {
            match generation_verdict(outcome) {
                Ok(text) => (
                    JobStateView::AwaitingDispatch,
                    ActionView::Dispatch(dispatch_call(webhook_url, text)),
                ),
                Err(error) => (JobStateView::Failed(error), ActionView::Idle),
            }
        },
        (JobStateView::AwaitingDispatch, EventView::DispatchDone(outcome)) => {
            match dispatch_verdict(outcome) {
                Ok(_) => (JobStateView::Succeeded, ActionView::Idle),
                Err(error) => (JobStateView::Failed(error), ActionView::Idle),
            }
        },
        _ => (state, ActionView::Idle),
    }
}

/// Begins a job with a configuration.
pub fn start(config: Config) -> (begun: (JobState, Action))
    ensures
        (begun.0@, begun.1@) == started(config@),
{
    let call = prepare_generation(
        config.api_url.as_str(),
        config.model.as_str(),
        config.api_key.as_str(),
        config.lang.as_str(),
    );
    (JobState::AwaitingGeneration { webhook_url: config.webhook_url }, Action::Generate(call))
}

/// Begins a job from the settings as supplied.
pub fn launch(settings: Settings) -> (begun: (JobState, Action))
    ensures
        (begun.0@, begun.1@) == launched(settings@),
{
    match Config::resolve(settings) {
        Ok(config) => start(config),
        Err(error) => (JobState::Failed(error), Action::Idle),
    }
}

/// Moves a job on by one event.
pub fn step(state: JobState, event: &Event) -> (moved: (JobState, Action))
    ensures
        (moved.0@, moved.1@) == next(state@, event@),
{
    match state {
        JobState::AwaitingGeneration { webhook_url } => match event {
            Event::GenerationDone(outcome) => match judge_generation(outcome) {
                Ok(text) => {
                    let call = prepare_dispatch(webhook_url.as_str(), text.as_str());
                    (JobState::AwaitingDispatch, Action::Dispatch(call))
                },
                Err(error) => (JobState::Failed(error), Action::Idle),
            },
            Event::DispatchDone(_) => (JobState::AwaitingGeneration { webhook_url }, Action::Idle),
        },
        JobState::AwaitingDispatch => match event {
            Event::DispatchDone(outcome) => match judge_dispatch(*outcome) {
                Ok(_) => (JobState::Succeeded, Action::Idle),
                Err(error) => (JobState::Failed(error), Action::Idle),
            },
            Event::GenerationDone(_) => (JobState::AwaitingDispatch, Action::Idle),
        },
        JobState::Succeeded => (JobState::Succeeded, Action::Idle),
        JobState::Failed(error) => (JobState::Failed(error), Action::Idle),
    }
}

} // verus!
