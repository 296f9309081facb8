//! Whole runs of the job: what a job does over a list of events, and what
//! holds of every run.

use vstd::prelude::*;
use crate::config::{resolved, Settings, SettingsView};
use crate::dispatch::{dispatch_call, dispatch_verdict, is_success_status, DispatchOutcome};
use crate::error::{DispatchFailure, GenerationFailure, JobError, Stage, TransportFailure};
use crate::generation::{generation_call, generation_verdict, GenerationOutcomeView};
use crate::job::{
    launch, launched, next, step, Action, ActionView, Event, EventView, JobState, JobStateView,
};

verus! {

/// A run so far: where the job stands and everything it has asked for, in
/// order.
pub struct RunView {
    pub state: JobStateView,
    pub actions: Seq<ActionView>,
}

/// The run of a job that is launched from `settings` and then hears
/// `events` one after the other. Its first action is the launch's; each event
/// adds the action that the job answers it with.
pub open spec fn run(settings: SettingsView, events: Seq<EventView>) -> RunView
    decreases events.len(),
{
    if events.len() == 0 {
        RunView { state: launched(settings).0, actions: seq![launched(settings).1] }
    } else {
        let before = run(settings, events.drop_last());
        let moved = next(before.state, events.last());
        RunView { state: moved.0, actions: before.actions.push(moved.1) }
    }
}

/// The views of a list of events, in order.
pub open spec fn events_view(events: Seq<Event>) -> Seq<EventView> {
    Seq::new(events.len(), |i: int| events[i]@)
}

/// The views of a list of actions, in order.
pub open spec fn actions_view(actions: Seq<Action>) -> Seq<ActionView> {
    Seq::new(actions.len(), |i: int| actions[i]@)
}

/// Plays a recorded list of events to a job launched from `settings`, and
/// returns where the job then stands with all that it asked for.
pub fn replay(settings: Settings, events: &Vec<Event>) -> (played: (JobState, Vec<Action>))
    ensures
        played.0@ == run(settings@, events_view(events@)).state,
        actions_view(played.1@) == run(settings@, events_view(events@)).actions,
{
    let ghost all = events_view(events@);
    let begun = launch(settings);
    let mut state = begun.0;
    let mut actions: Vec<Action> = Vec::new();
    actions.push(begun.1);
    assert(actions_view(actions@) =~= run(settings@, all.take(0)).actions);
    let mut done: usize = 0;
    while done < events.len()
        invariant
            done <= events.len(),
            all == events_view(events@),
            state@ == run(settings@, all.take(done as int)).state,
            actions_view(actions@) == run(settings@, all.take(done as int)).actions,
        decreases events.len() - done,
    {
        let ghost before = actions_view(actions@);
        let moved = step(state, &events[done]);
        state = moved.0;
        actions.push(moved.1);
        done = done + 1;
        proof {
            let prefix = all.take(done as int);
            assert(prefix.drop_last() =~= all.take(done - 1));
            assert(prefix.last() == events@[done - 1]@);
            assert(actions_view(actions@) =~= before.push(moved.1@));
        }
    }
    assert(all.take(done as int) =~= all);
    (state, actions)
}

/// Whether a run has asked for the dispatch call.
pub open spec fn asked_to_dispatch(actions: Seq<ActionView>) -> bool {
    exists|i: int| 0 <= i < actions.len() && #[trigger] actions[i] is Dispatch
}

/// Whether a run has asked for any outbound call.
pub open spec fn asked_for_a_call(actions: Seq<ActionView>) -> bool {
    exists|i: int| 0 <= i < actions.len() && (#[trigger] actions[i]).is_call()
}

/// A job that is over stays as it is and asks for nothing, whatever it hears.
pub proof fn lemma_finished_job_stays(state: JobStateView, event: EventView)
    requires
        state.finished(),
    ensures
        next(state, event) == (state, ActionView::Idle),
{
}

/// Every run answers each event with exactly one action, after the one of its
/// launch.
pub proof fn lemma_run_length(settings: SettingsView, events: Seq<EventView>)
    ensures
        run(settings, events).actions.len() == events.len() + 1,
    decreases events.len(),
{
    if events.len() > 0 {
        lemma_run_length(settings, events.drop_last());
    }
}

/// A job whose settings lack the credential or the webhook URL fails with
/// that configuration error before any outbound call: whatever it hears, it
/// never asks for one.
pub proof fn lemma_misconfigured_run_makes_no_call(settings: SettingsView, events: Seq<EventView>)
    requires
        resolved(settings) is Err,
    ensures
        run(settings, events).state == JobStateView::Failed(resolved(settings)->Err_0),
        resolved(settings)->Err_0.stage_of() == Stage::Configuration,
        !asked_for_a_call(run(settings, events).actions),
    decreases events.len(),
{
    if events.len() > 0 {
        lemma_misconfigured_run_makes_no_call(settings, events.drop_last());
    }
}

/// Every run of a well-configured job begins by asking for its own
/// generation call, built from its own configuration: nothing is carried
/// over from another run, and nothing that it hears later changes the call.
pub proof fn lemma_run_begins_with_generation(settings: SettingsView, events: Seq<EventView>)
    requires
        resolved(settings) is Ok,
    ensures
        run(settings, events).actions.len() == events.len() + 1,
        run(settings, events).actions[0] == ActionView::Generate(
            generation_call(
                resolved(settings)->Ok_0.api_url,
                resolved(settings)->Ok_0.model,
                resolved(settings)->Ok_0.api_key,
                resolved(settings)->Ok_0.lang,
            ),
        ),
    decreases events.len(),
{
    if events.len() > 0 {
        lemma_run_begins_with_generation(settings, events.drop_last());
    }
}

/// No run repeats a call. Only the launch can ask for the generation call,
/// and the dispatch call is asked for at most once; while a job still awaits
/// the generation call it has not asked for the dispatch call at all.
pub proof fn lemma_no_call_is_repeated(settings: SettingsView, events: Seq<EventView>)
    ensures
        forall|i: int|
            0 < i < run(settings, events).actions.len() ==> !(#[trigger] run(
                settings,
                events,
            ).actions[i] is Generate),
        forall|i: int, j: int|
            0 <= i < j < run(settings, events).actions.len() ==> !((#[trigger] run(
                settings,
                events,
            ).actions[i]) is Dispatch && (#[trigger] run(settings, events).actions[j]) is Dispatch),
        run(settings, events).state is AwaitingGeneration ==> !asked_to_dispatch(
            run(settings, events).actions,
        ),
    decreases events.len(),
{
    if events.len() > 0 {
        lemma_no_call_is_repeated(settings, events.drop_last());
        let before = run(settings, events.drop_last());
        let after = run(settings, events);
        lemma_run_length(settings, events.drop_last());
        assert forall|i: int, j: int| 0 <= i < j < after.actions.len() implies !((
        #[trigger] after.actions[i]) is Dispatch && (#[trigger] after.actions[j]) is Dispatch) by {
            if j == before.actions.len() && after.actions[j] is Dispatch {
                assert(before.state is AwaitingGeneration);
                assert(after.actions[i] == before.actions[i]);
            } else if j < before.actions.len() {
                assert(after.actions[i] == before.actions[i]);
                assert(after.actions[j] == before.actions[j]);
            }
        }
    }
}

/// A well-configured job that hears a generation answer with at least one
/// candidate, and then a success status from the webhook, succeeds. It asks
/// for exactly two calls, the generation call and then the dispatch call, and
/// the dispatched text is the first candidate's content, character for
/// character.
pub proof fn lemma_successful_run_delivers_first_choice(
    settings: SettingsView,
    choices: Seq<Seq<char>>,
    status: u16,
)
    requires
        resolved(settings) is Ok,
        choices.len() >= 1,
        is_success_status(status),
    ensures
        ({
            let config = resolved(settings)->Ok_0;
            let events = seq![
                EventView::GenerationDone(GenerationOutcomeView::Replied(choices)),
                EventView::DispatchDone(DispatchOutcome::Status(status)),
            ];
            &&& run(settings, events).state == JobStateView::Succeeded
            &&& run(settings, events).actions == seq![
                ActionView::Generate(
                    generation_call(config.api_url, config.model, config.api_key, config.lang),
                ),
                ActionView::Dispatch(dispatch_call(config.webhook_url, choices[0])),
                ActionView::Idle,
            ]
        }),
{
    let config = resolved(settings)->Ok_0;
    let first = EventView::GenerationDone(GenerationOutcomeView::Replied(choices));
    let second = EventView::DispatchDone(DispatchOutcome::Status(status));
    let events = seq![first, second];
    reveal_with_fuel(run, 3);
    assert(events.drop_last() =~= seq![first]);
    assert(seq![first].drop_last() =~= Seq::<EventView>::empty());
    assert(run(settings, events).actions =~= seq![
        ActionView::Generate(
            generation_call(config.api_url, config.model, config.api_key, config.lang),
        ),
        ActionView::Dispatch(dispatch_call(config.webhook_url, choices[0])),
        ActionView::Idle,
    ]);
}

/// Whether the events hold an answer of the webhook that counts as
/// delivered.
pub open spec fn heard_delivery(events: Seq<EventView>) -> bool {
    exists|k: int|
        0 <= k < events.len() && (#[trigger] events[k]) is DispatchDone && dispatch_verdict(
            events[k]->DispatchDone_0,
        ) is Ok
}

/// A job succeeds only if both calls succeeded: a run that ends in success
/// was well configured, asked for the dispatch call, and heard a success
/// status from the webhook.
pub proof fn lemma_success_needs_both_calls(settings: SettingsView, events: Seq<EventView>)
    ensures
        run(settings, events).state is AwaitingDispatch || run(settings, events).state is Succeeded
            ==> resolved(settings) is Ok && asked_to_dispatch(run(settings, events).actions),
        run(settings, events).state is Succeeded ==> heard_delivery(events),
    decreases events.len(),
{
    if resolved(settings) is Err {
        lemma_misconfigured_run_makes_no_call(settings, events);
    } else if events.len() > 0 {
        let prefix = events.drop_last();
        let before = run(settings, prefix);
        let after = run(settings, events);
        lemma_success_needs_both_calls(settings, prefix);
        lemma_run_length(settings, prefix);
        if after.state is AwaitingDispatch || after.state is Succeeded {
            if before.state is AwaitingGeneration {
                assert(after.actions[before.actions.len() as int] is Dispatch);
            } else {
                let i = choose|i: int|
                    0 <= i < before.actions.len() && #[trigger] before.actions[i] is Dispatch;
                assert(after.actions[i] is Dispatch);
            }
        }
        if after.state is Succeeded {
            if before.state is Succeeded {
                let k = choose|k: int|
                    0 <= k < prefix.len() && (#[trigger] prefix[k]) is DispatchDone
                        && dispatch_verdict(prefix[k]->DispatchDone_0) is Ok;
                assert(events[k] == prefix[k]);
            } else {
                assert(events[events.len() - 1] is DispatchDone);
            }
        }
    }
}

/// A job whose generation call fails, for whatever reason, fails with that
/// very error and never asks for the dispatch call, whatever it hears
/// afterwards. The error belongs to the generation stage.
pub proof fn lemma_failed_generation_never_dispatches(
    settings: SettingsView,
    events: Seq<EventView>,
)
    requires
        resolved(settings) is Ok,
        events.len() >= 1,
        events[0] is GenerationDone,
        generation_verdict(events[0]->GenerationDone_0) is Err,
    ensures
        run(settings, events).state == JobStateView::Failed(
            generation_verdict(events[0]->GenerationDone_0)->Err_0,
        ),
        generation_verdict(events[0]->GenerationDone_0)->Err_0.stage_of() == Stage::Generation,
        !asked_to_dispatch(run(settings, events).actions),
    decreases events.len(),
{
    if events.len() == 1 {
        reveal_with_fuel(run, 2);
        assert(events.drop_last().len() == 0);
        assert(events.last() == events[0]);
    } else {
        assert(events.drop_last()[0] == events[0]);
        lemma_failed_generation_never_dispatches(settings, events.drop_last());
    }
}

/// A job that is told that the completion endpoint returned no candidate
/// at all fails with the content error and never asks for the dispatch
/// call.
pub proof fn lemma_empty_answer_never_dispatches(settings: SettingsView, events: Seq<EventView>)
    requires
        resolved(settings) is Ok,
        events.len() >= 1,
        events[0] == EventView::GenerationDone(
            GenerationOutcomeView::Replied(Seq::<Seq<char>>::empty()),
        ),
    ensures
        run(settings, events).state == JobStateView::Failed(JobError::GenerationContent),
        !asked_to_dispatch(run(settings, events).actions),
{
    lemma_failed_generation_never_dispatches(settings, events);
}

/// A job whose generation call ran out of time fails with a generation error
/// that is classed as a timeout, and never asks for the dispatch call.
pub proof fn lemma_generation_timeout_never_dispatches(
    settings: SettingsView,
    events: Seq<EventView>,
)
    requires
        resolved(settings) is Ok,
        events.len() >= 1,
        events[0] == EventView::GenerationDone(
            GenerationOutcomeView::Failed(TransportFailure::Timeout),
        ),
    ensures
        run(settings, events).state == JobStateView::Failed(
            JobError::GenerationTransport(GenerationFailure::Timeout),
        ),
        JobError::GenerationTransport(GenerationFailure::Timeout).timed_out(),
        JobError::GenerationTransport(GenerationFailure::Timeout).stage_of() == Stage::Generation,
        !asked_to_dispatch(run(settings, events).actions),
{
    lemma_failed_generation_never_dispatches(settings, events);
}

/// A job whose generation succeeded and whose webhook then answers with a
/// status outside the success class fails with an error that carries that
/// status and belongs to the dispatch stage, not to the generation stage.
pub proof fn lemma_refused_dispatch_fails_at_dispatch_stage(
    settings: SettingsView,
    choices: Seq<Seq<char>>,
    status: u16,
)
    requires
        resolved(settings) is Ok,
        choices.len() >= 1,
        !is_success_status(status),
    ensures
        ({
            let events = seq![
                EventView::GenerationDone(GenerationOutcomeView::Replied(choices)),
                EventView::DispatchDone(DispatchOutcome::Status(status)),
            ];
            let error = JobError::DispatchTransport(DispatchFailure::Status(status));
            &&& run(settings, events).state == JobStateView::Failed(error)
            &&& error.stage_of() == Stage::Dispatch
            &&& error.stage_of() != Stage::Generation
        }),
{
    let first = EventView::GenerationDone(GenerationOutcomeView::Replied(choices));
    let second = EventView::DispatchDone(DispatchOutcome::Status(status));
    let events = seq![first, second];
    reveal_with_fuel(run, 3);
    assert(events.drop_last() =~= seq![first]);
    assert(seq![first].drop_last() =~= Seq::<EventView>::empty());
}

/// The two stages never share an error: whatever the generation call's end
/// is judged to be, a failure there belongs to the generation stage, and a
/// failure of the dispatch call belongs to the dispatch stage.
pub proof fn lemma_stage_errors_are_distinct(
    generation: GenerationOutcomeView,
    dispatch: DispatchOutcome,
)
    requires
        generation_verdict(generation) is Err,
        dispatch_verdict(dispatch) is Err,
    ensures
        generation_verdict(generation)->Err_0.stage_of() == Stage::Generation,
        dispatch_verdict(dispatch)->Err_0.stage_of() == Stage::Dispatch,
        generation_verdict(generation)->Err_0 != dispatch_verdict(dispatch)->Err_0,
{
}

} // verus!
