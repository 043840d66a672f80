//! The capture scheduler, as a machine that never stops.
//!
//! The scheduler does no waiting, looking or saving of its own. It hands its
//! driver one [`Action`] at a time and takes back the [`Event`] that says how
//! the action went. One cycle is: sleep, look at the foreground window, ask
//! for the time of the last input, take the picture. Whatever fails in a
//! cycle ends that cycle with a [`Note`] and a new sleep of the configured
//! length; nothing ends the machine.

use crate::activity::ActivityGate;
use crate::classifier::{
    classification, classify, facts_view, CaptureTarget, CaptureTargetView,
    ClassificationFailure, WindowFacts, WindowFactsView,
};
use crate::paths::{capture_location, location_of};
use crate::rules::{Config, ConfigView};
use crate::timestamp::{file_name, file_name_of, local_now, Timestamp};
use vstd::prelude::*;

verus! {

/// What the scheduler is waiting for.
#[derive(Debug)]
pub enum Phase {
    /// For the sleep to end.
    Sleeping,
    /// For the facts about the foreground window.
    Observing,
    /// For the time of the last input, with the window classified.
    Gating { target: CaptureTarget },
    /// For the picture to be saved.
    Capturing { bucket: String, input_time: u32 },
}

/// A phase as a mathematical value.
pub enum PhaseView {
    Sleeping,
    Observing,
    Gating { target: CaptureTargetView },
    Capturing { bucket: Seq<char>, input_time: u32 },
}

impl View for Phase {
    type V = PhaseView;

    open spec fn view(&self) -> PhaseView {
        match *self {
            Phase::Sleeping => PhaseView::Sleeping,
            Phase::Observing => PhaseView::Observing,
            Phase::Gating { target } => PhaseView::Gating { target: target@ },
            Phase::Capturing { bucket, input_time } => PhaseView::Capturing {
                bucket: bucket@,
                input_time,
            },
        }
    }
}

/// What the driver reports back.
#[derive(Debug)]
pub enum Event {
    /// The sleep is over.
    Woke,
    /// The facts about the foreground window, or `None` where there is none.
    Observed(Option<WindowFacts>),
    /// The time of the last input, or `None` where the query failed.
    LastInput(Option<u32>),
    /// Whether the picture was saved.
    CaptureFinished(bool),
}

/// An event as a mathematical value.
pub enum EventView {
    Woke,
    Observed(Option<WindowFactsView>),
    LastInput(Option<u32>),
    CaptureFinished(bool),
}

impl View for Event {
    type V = EventView;

    open spec fn view(&self) -> EventView {
        match *self {
            Event::Woke => EventView::Woke,
            Event::Observed(foreground) => EventView::Observed(
                match foreground {
                    Some(facts) => Some(facts@),
                    None => None,
                },
            ),
            Event::LastInput(current) => EventView::LastInput(current),
            Event::CaptureFinished(saved) => EventView::CaptureFinished(saved),
        }
    }
}

/// What the driver is to do next.
#[derive(Debug)]
pub enum Action {
    /// Sleep for so many seconds, then report [`Event::Woke`].
    Sleep { seconds: u64 },
    /// Gather the facts about the foreground window.
    Observe,
    /// Ask the system for the time of the last input.
    QueryLastInput,
    /// Make `folder` if it is not there, and save a picture of the monitor
    /// that shows `window` as `file`.
    Capture { window: u32, folder: String, file: String },
}

/// An action as a mathematical value.
pub enum ActionView {
    Sleep { seconds: u64 },
    Observe,
    QueryLastInput,
    Capture { window: u32, folder: Seq<char>, file: Seq<char> },
}

impl View for Action {
    type V = ActionView;

    open spec fn view(&self) -> ActionView {
        match *self {
            Action::Sleep { seconds } => ActionView::Sleep { seconds },
            Action::Observe => ActionView::Observe,
            Action::QueryLastInput => ActionView::QueryLastInput,
            Action::Capture { window, folder, file } => ActionView::Capture {
                window,
                folder: folder@,
                file: file@,
            },
        }
    }
}

/// How a cycle ended, for the log.
#[derive(Debug)]
pub enum Note {
    /// The foreground window is no capture target.
    Rejected(ClassificationFailure),
    /// There was no input since the last saved picture.
    NoNewInput,
    /// The time of the last input could not be had.
    ActivityQueryFailed,
    /// The picture could not be saved, or its location could not be named.
    CaptureFailed,
    /// The picture was saved under the bucket.
    Saved { bucket: String },
    /// The event did not answer the pending action.
    UnexpectedEvent,
}

/// A note as a mathematical value.
pub enum NoteView {
    Rejected(ClassificationFailure),
    NoNewInput,
    ActivityQueryFailed,
    CaptureFailed,
    Saved { bucket: Seq<char> },
    UnexpectedEvent,
}

impl View for Note {
    type V = NoteView;

    open spec fn view(&self) -> NoteView {
        match *self {
            Note::Rejected(reason) => NoteView::Rejected(reason),
            Note::NoNewInput => NoteView::NoNewInput,
            Note::ActivityQueryFailed => NoteView::ActivityQueryFailed,
            Note::CaptureFailed => NoteView::CaptureFailed,
            Note::Saved { bucket } => NoteView::Saved { bucket: bucket@ },
            Note::UnexpectedEvent => NoteView::UnexpectedEvent,
        }
    }
}

/// The scheduler's answer to an event.
#[derive(Debug)]
pub struct Step {
    /// What to do next.
    pub action: Action,
    /// How the cycle ended, where the event ended one.
    pub note: Option<Note>,
}

/// A step as a mathematical value.
pub struct StepView {
    pub action: ActionView,
    pub note: Option<NoteView>,
}

impl View for Step {
    type V = StepView;

    open spec fn view(&self) -> StepView {
        StepView {
            action: self.action@,
            note: match self.note {
                Some(note) => Some(note@),
                None => None,
            },
        }
    }
}

/// The scheduler's state as a mathematical value.
pub struct SchedulerView {
    /// The time of the last input for which a picture was saved.
    pub recorded: u32,
    pub phase: PhaseView,
}

impl SchedulerView {
    /// A picture is only ever under way for an input that is newer than the
    /// recorded one.
    pub open spec fn coherent(self) -> bool {
        self.phase matches PhaseView::Capturing { input_time, .. } ==> input_time > self.recorded
    }
}

/// The state in which the scheduler starts: nothing recorded, asleep.
pub open spec fn initial() -> SchedulerView {
    SchedulerView { recorded: 0, phase: PhaseView::Sleeping }
}

/// The end of a cycle: asleep again for the configured time, with a note.
pub open spec fn rest(config: ConfigView, recorded: u32, note: NoteView) -> (
    SchedulerView,
    StepView,
) {
    (
        SchedulerView { recorded, phase: PhaseView::Sleeping },
        StepView {
            action: ActionView::Sleep { seconds: config.screenshot_delay },
            note: Some(note),
        },
    )
}

/// The scheduler's move on to the next phase within a cycle.
pub open spec fn proceed(recorded: u32, phase: PhaseView, action: ActionView) -> (
    SchedulerView,
    StepView,
) {
    (SchedulerView { recorded, phase }, StepView { action, note: None })
}

/// The scheduler's transition: the state after the event `event` in the
/// state `state`, and the answer to the event. `now` is the local time at
/// which the event is handled; it names the picture's file.
pub open spec fn next(config: ConfigView, state: SchedulerView, event: EventView, now: Timestamp) -> (
    SchedulerView,
    StepView,
) {
    match (state.phase, event) {
        (PhaseView::Sleeping, EventView::Woke) => proceed(
            state.recorded,
            PhaseView::Observing,
            ActionView::Observe,
        ),
        (PhaseView::Observing, EventView::Observed(foreground)) => match classification(
            config.rules,
            foreground,
        ) {
            Ok(target) => proceed(
                state.recorded,
                PhaseView::Gating { target },
                ActionView::QueryLastInput,
            ),
            Err(reason) => rest(config, state.recorded, NoteView::Rejected(reason)),
        },
        (PhaseView::Gating { target }, EventView::LastInput(current)) => match current {
            None => rest(config, state.recorded, NoteView::ActivityQueryFailed),
            Some(input_time) => if input_time <= state.recorded {
                rest(config, state.recorded, NoteView::NoNewInput)
            } else {
                match location_of(config.target_folder, target.bucket, file_name_of(now)) {
                    None => rest(config, state.recorded, NoteView::CaptureFailed),
                    Some(location) => proceed(
                        state.recorded,
                        PhaseView::Capturing { bucket: target.bucket, input_time },
                        ActionView::Capture {
                            window: target.window,
                            folder: location.folder,
                            file: location.file,
                        },
                    ),
                }
            },
        },
        (PhaseView::Capturing { bucket, input_time }, EventView::CaptureFinished(saved)) => if saved {
            rest(config, input_time, NoteView::Saved { bucket })
        } else {
            rest(config, state.recorded, NoteView::CaptureFailed)
        },
        _ => rest(config, state.recorded, NoteView::UnexpectedEvent),
    }
}

/// The capture scheduler.
#[derive(Debug)]
pub struct Scheduler {
    gate: ActivityGate,
    phase: Phase,
}

impl View for Scheduler {
    type V = SchedulerView;

    closed spec fn view(&self) -> SchedulerView {
        SchedulerView { recorded: self.gate.recorded(), phase: self.phase@ }
    }
}

impl Scheduler {
    #[verifier::type_invariant]
    spec fn holds_together(self) -> bool {
        self@.coherent()
    }

    /// A scheduler that has recorded nothing, and the action that starts its
    /// first cycle: a sleep of the configured length.
    pub fn start(config: &Config) -> (r: (Scheduler, Action))
        ensures
            r.0@ == initial(),
            r.1@ == (ActionView::Sleep { seconds: config@.screenshot_delay }),
    {
        (
            Scheduler { gate: ActivityGate::new(), phase: Phase::Sleeping },
            Action::Sleep { seconds: config.screenshot_delay },
        )
    }

    /// The time of the last input for which a picture was saved.
    pub fn last_recorded(&self) -> (r: u32)
        ensures
            r == self@.recorded,
            self@.coherent(),
    {
        proof {
            use_type_invariant(self);
        }
        self.gate.last_recorded()
    }

    /// What the scheduler is waiting for.
    pub fn phase(&self) -> (r: &Phase)
        ensures
            r@ == self@.phase,
    {
        &self.phase
    }

    fn rest(gate: ActivityGate, config: &Config, note: Note) -> (r: (Scheduler, Step))
        ensures
            (r.0@, r.1@) == rest(config@, gate.recorded(), note@),
    {
        (
            Scheduler { gate, phase: Phase::Sleeping },
            Step { action: Action::Sleep { seconds: config.screenshot_delay }, note: Some(note) },
        )
    }

    /// Handles `event` at the local time `now`: the scheduler's transition,
    /// exactly as [`next`] defines it.
    pub fn advance(self, config: &Config, event: Event, now: &Timestamp) -> (r: (
        Scheduler,
        Step,
    ))
        ensures
            (r.0@, r.1@) == next(config@, self@, event@, *now),
            r.0@.coherent(),
    {
        proof {
            use_type_invariant(&self);
        }
        let Scheduler { gate, phase } = self;
        match (phase, event) {
            (Phase::Sleeping, Event::Woke) => (
                Scheduler { gate, phase: Phase::Observing },
                Step { action: Action::Observe, note: None },
            ),
            (Phase::Observing, Event::Observed(foreground)) => {
                match classify(config, foreground.as_ref()) {
                    Ok(target) => (
                        Scheduler { gate, phase: Phase::Gating { target } },
                        Step { action: Action::QueryLastInput, note: None },
                    ),
                    Err(reason) => Scheduler::rest(gate, config, Note::Rejected(reason)),
                }
            },
            (Phase::Gating { target }, Event::LastInput(current)) => {
                let input_time = match current {
                    Some(t) => t,
                    None => {
                        return Scheduler::rest(gate, config, Note::ActivityQueryFailed);
                    },
                };
                if !gate.should_capture(current) {
                    return Scheduler::rest(gate, config, Note::NoNewInput);
                }
                let name = file_name(now);
                let CaptureTarget { window, bucket } = target;
                match capture_location(
                    config.target_folder.as_str(),
                    bucket.as_str(),
                    name.as_str(),
                ) {
                    Some(location) => (
                        Scheduler { gate, phase: Phase::Capturing { bucket, input_time } },
                        Step {
                            action: Action::Capture {
                                window,
                                folder: location.folder,
                                file: location.file,
                            },
                            note: None,
                        },
                    ),
                    None => Scheduler::rest(gate, config, Note::CaptureFailed),
                }
            },
            (Phase::Capturing { bucket, input_time }, Event::CaptureFinished(saved)) => {
                if saved {
                    let mut gate = gate;
                    gate.commit(input_time);
                    Scheduler::rest(gate, config, Note::Saved { bucket })
                } else {
                    Scheduler::rest(gate, config, Note::CaptureFailed)
                }
            },
            _ => Scheduler::rest(gate, config, Note::UnexpectedEvent),
        }
    }

    /// Handles `event` at the present local time, which it reads from the
    /// clock. The transition is that of [`next`] for the time that the clock
    /// gave, whichever that was.
    pub fn step(self, config: &Config, event: Event) -> (r: (Scheduler, Step))
        ensures
            exists|now: Timestamp|
                now.in_range() && (r.0@, r.1@) == #[trigger] next(config@, self@, event@, now),
            r.0@.coherent(),
    {
        let now = local_now();
        self.advance(config, event, &now)
    }
}

/// The state after the scheduler has handled `inputs` one after the other,
/// each an event and the local time at which it is handled.
pub open spec fn run(
    config: ConfigView,
    state: SchedulerView,
    inputs: Seq<(EventView, Timestamp)>,
) -> SchedulerView
    decreases inputs.len(),
{
    if inputs.len() == 0 {
        state
    } else {
        run(config, next(config, state, inputs[0].0, inputs[0].1).0, inputs.drop_first())
    }
}

/// The scheduler's answer to the input at index `i` of `inputs`, after it has
/// handled those before it.
pub open spec fn answer_at(
    config: ConfigView,
    state: SchedulerView,
    inputs: Seq<(EventView, Timestamp)>,
    i: int,
) -> StepView {
    next(config, run(config, state, inputs.take(i)), inputs[i].0, inputs[i].1).1
}

/// Whether the event reports input that is newer than `recorded`.
pub open spec fn brings_new_input(event: EventView, recorded: u32) -> bool {
    event matches EventView::LastInput(Some(t)) && t > recorded
}

/// No event breaks the rule that a picture is only under way for an input
/// newer than the recorded one.
pub proof fn lemma_next_coherent(
    config: ConfigView,
    state: SchedulerView,
    event: EventView,
    now: Timestamp,
)
    requires
        state.coherent(),
    ensures
        next(config, state, event, now).0.coherent(),
{
}

/// The recorded time never goes down. It changes only when a picture has
/// been saved, and then to the time of the input that the picture was taken
/// for.
pub proof fn lemma_recorded_only_grows(
    config: ConfigView,
    state: SchedulerView,
    event: EventView,
    now: Timestamp,
)
    requires
        state.coherent(),
    ensures
        next(config, state, event, now).0.recorded >= state.recorded,
        next(config, state, event, now).0.recorded != state.recorded ==> {
            &&& state.phase matches PhaseView::Capturing { bucket, input_time }
            &&& event == EventView::CaptureFinished(true)
            &&& next(config, state, event, now).0.recorded == input_time
            &&& next(config, state, event, now).1.note == Some(NoteView::Saved { bucket })
        },
{
}

/// An answer carries a note exactly when it ends the cycle, and every end of
/// a cycle, a failure or not, leaves the scheduler asleep for the configured
/// time: nothing stops it, and nothing makes it try again sooner.
pub proof fn lemma_note_ends_cycle(
    config: ConfigView,
    state: SchedulerView,
    event: EventView,
    now: Timestamp,
)
    ensures
        next(config, state, event, now).1.note is Some <==> next(
            config,
            state,
            event,
            now,
        ).0.phase is Sleeping,
        next(config, state, event, now).1.note is Some <==> next(config, state, event, now).1.action
            == (ActionView::Sleep { seconds: config.screenshot_delay }),
{
}

/// A picture is asked for only in answer to input that is newer than the
/// recorded one, for the window that was classified, at the location of its
/// bucket.
pub proof fn lemma_capture_needs_new_input(
    config: ConfigView,
    state: SchedulerView,
    event: EventView,
    now: Timestamp,
)
    requires
        next(config, state, event, now).1.action is Capture,
    ensures
        brings_new_input(event, state.recorded),
        state.phase matches PhaseView::Gating { target } && {
            &&& location_of(config.target_folder, target.bucket, file_name_of(now)) matches Some(
                location,
            )
            &&& next(config, state, event, now).1.action == (ActionView::Capture {
                window: target.window,
                folder: location.folder,
                file: location.file,
            })
        },
{
}

/// A cycle in which every step succeeds: from sleep, a window that
/// classifies, input newer than the recorded one and a location that can be
/// named lead to the picture, and the saved picture records the input's time.
pub proof fn lemma_successful_cycle(
    config: ConfigView,
    recorded: u32,
    foreground: Option<WindowFactsView>,
    input_time: u32,
    now: Timestamp,
    inputs: Seq<(EventView, Timestamp)>,
)
    requires
        classification(config.rules, foreground) is Ok,
        input_time > recorded,
        location_of(
            config.target_folder,
            classification(config.rules, foreground)->Ok_0.bucket,
            file_name_of(now),
        ) is Some,
        inputs == seq![
            (EventView::Woke, now),
            (EventView::Observed(foreground), now),
            (EventView::LastInput(Some(input_time)), now),
            (EventView::CaptureFinished(true), now),
        ],
    ensures
        ({
            let start = SchedulerView { recorded, phase: PhaseView::Sleeping };
            let target = classification(config.rules, foreground)->Ok_0;
            let location = location_of(config.target_folder, target.bucket, file_name_of(now))->0;
            &&& answer_at(config, start, inputs, 0).action == ActionView::Observe
            &&& answer_at(config, start, inputs, 1).action == ActionView::QueryLastInput
            &&& answer_at(config, start, inputs, 2).action == (ActionView::Capture {
                window: target.window,
                folder: location.folder,
                file: location.file,
            })
            &&& answer_at(config, start, inputs, 3).note == Some(
                NoteView::Saved { bucket: target.bucket },
            )
            &&& run(config, start, inputs) == (SchedulerView {
                recorded: input_time,
                phase: PhaseView::Sleeping,
            })
        }),
{
    let start = SchedulerView { recorded, phase: PhaseView::Sleeping };
    let s1 = next(config, start, inputs[0].0, now).0;
    let s2 = next(config, s1, inputs[1].0, now).0;
    let s3 = next(config, s2, inputs[2].0, now).0;
    let s4 = next(config, s3, inputs[3].0, now).0;
    lemma_run_take(config, start, inputs, 0);
    lemma_run_take(config, start, inputs, 1);
    lemma_run_take(config, start, inputs, 2);
    lemma_run_take(config, start, inputs, 3);
    assert(inputs.take(0).len() == 0);
    assert(run(config, start, inputs.take(0)) == start);
    assert(run(config, start, inputs.take(1)) == s1);
    assert(run(config, start, inputs.take(2)) == s2);
    assert(run(config, start, inputs.take(3)) == s3);
    assert(inputs.take(4) =~= inputs);
    assert(run(config, start, inputs) == s4);
}

/// Handling one more input is one more transition from the state that the
/// inputs before it led to.
pub proof fn lemma_run_take(
    config: ConfigView,
    state: SchedulerView,
    inputs: Seq<(EventView, Timestamp)>,
    i: int,
)
    requires
        0 <= i < inputs.len(),
    ensures
        run(config, state, inputs.take(i + 1)) == next(
            config,
            run(config, state, inputs.take(i)),
            inputs[i].0,
            inputs[i].1,
        ).0,
    decreases i,
{
    let first = next(config, state, inputs[0].0, inputs[0].1).0;
    if i == 0 {
        assert(inputs.take(1).drop_first() =~= Seq::<(EventView, Timestamp)>::empty());
        assert(inputs.take(0) =~= Seq::<(EventView, Timestamp)>::empty());
        assert(inputs.take(1)[0] == inputs[0]);
        assert(run(config, first, inputs.take(1).drop_first()) == first);
    } else {
        let rest = inputs.drop_first();
        lemma_run_take(config, first, rest, i - 1);
        assert(inputs.take(i + 1).drop_first() =~= rest.take(i));
        assert(inputs.take(i).drop_first() =~= rest.take(i - 1));
        assert(inputs.take(i + 1)[0] == inputs[0]);
        assert(inputs.take(i)[0] == inputs[0]);
        assert(rest[i - 1] == inputs[i]);
    }
}

/// The states that a coherent scheduler passes through are coherent, and the
/// recorded time of none of them is below the one it started with.
pub proof fn lemma_run_only_grows(
    config: ConfigView,
    state: SchedulerView,
    inputs: Seq<(EventView, Timestamp)>,
)
    requires
        state.coherent(),
    ensures
        run(config, state, inputs).coherent(),
        run(config, state, inputs).recorded >= state.recorded,
    decreases inputs.len(),
{
    if inputs.len() > 0 {
        let first = next(config, state, inputs[0].0, inputs[0].1).0;
        lemma_next_coherent(config, state, inputs[0].0, inputs[0].1);
        lemma_recorded_only_grows(config, state, inputs[0].0, inputs[0].1);
        lemma_run_only_grows(config, first, inputs.drop_first());
    }
}

/// While the system reports no input newer than the recorded one, the
/// scheduler asks for no picture, however many cycles pass and whatever
/// window is in front.
pub proof fn lemma_no_capture_without_new_input(
    config: ConfigView,
    state: SchedulerView,
    inputs: Seq<(EventView, Timestamp)>,
    i: int,
)
    requires
        state.coherent(),
        0 <= i < inputs.len(),
        forall|k: int| 0 <= k <= i ==> !brings_new_input(#[trigger] inputs[k].0, state.recorded),
    ensures
        !(answer_at(config, state, inputs, i).action is Capture),
{
    let before = run(config, state, inputs.take(i));
    lemma_run_only_grows(config, state, inputs.take(i));
    if answer_at(config, state, inputs, i).action is Capture {
        lemma_capture_needs_new_input(config, before, inputs[i].0, inputs[i].1);
        assert(brings_new_input(inputs[i].0, state.recorded));
    }
}

} // verus!
