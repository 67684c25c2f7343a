//! The simulation engine: what one tick does to the flight model, the run
//! flags and the stream of events.
//!
//! The caller owns the clock. It calls `tick` once per period, under the lock
//! that guards the shared state, and the engine does the rest.

use crate::event::{Event, EventKind, Payload};
use crate::state::{RunFlags, SentEvent, ServerState, StartStatus, StateView};
use crate::telemetry::{jitter_from_draw, jitter_of, Telemetry, TICK_MS};
use vstd::prelude::*;

verus! {

/// An `idle` event is sent on every tick whose count is a multiple of this.
pub const IDLE_PERIOD: u64 = 10;

/// The tick count up to which the elapsed time in milliseconds fits in `u64`.
pub const MAX_TICKS: u64 = u64::MAX / TICK_MS;

/// The most events that one tick sends.
pub const MAX_EVENTS_PER_TICK: u64 = 2;

/// The engine as contracts see it.
pub struct EngineView {
    /// Ticks since the engine was made.
    pub counter: u64,
    /// The tick on which the current run, or else the last one, began.
    pub start: u64,
    /// The latest sample of that run.
    pub telemetry: Telemetry,
}

/// The engine: the tick counter and the flight model of the run.
pub struct SimulationEngine {
    counter: u64,
    start: u64,
    telemetry: Telemetry,
}

/// The engine after a tick taken under `flags` with jitter `jitter`. A run
/// that begins on this tick starts from the initial sample, with this tick as
/// its tick zero; a run in progress advances its sample by one tick; without
/// a request only the counter moves.
pub open spec fn tick_engine(engine: EngineView, flags: RunFlags, jitter: i64) -> EngineView {
    let counter = (engine.counter + 1) as u64;
    if flags.requested {
        let start = if flags.running {
            engine.start
        } else {
            counter
        };
        let sample = if flags.running {
            engine.telemetry
        } else {
            Telemetry::spec_start()
        };
        EngineView {
            counter,
            start,
            telemetry: sample.advanced((counter - start) as u64, jitter),
        }
    } else {
        EngineView { counter, ..engine }
    }
}

/// The kinds of the events that the tick numbered `counter` sends under
/// `flags`, in order: a sample on every tick of a requested run, after the
/// announcement on its first; the announcement of the end on the first tick
/// after a run is no longer requested; and otherwise `idle` on every tenth
/// tick.
pub open spec fn tick_kinds(counter: u64, flags: RunFlags) -> Seq<EventKind> {
    if flags.requested {
        if flags.running {
            seq![EventKind::Telemetry]
        } else {
            seq![EventKind::TelemetryStarted, EventKind::Telemetry]
        }
    } else if flags.running {
        seq![EventKind::TelemetryStopped]
    } else if counter % IDLE_PERIOD == 0 {
        seq![EventKind::Idle]
    } else {
        Seq::empty()
    }
}

/// The event of kind `kind` that a tick sends: samples carry `sample`, the
/// other kinds carry nothing.
pub open spec fn tick_event(kind: EventKind, sample: Telemetry, sequence_id: u64) -> Event {
    Event {
        sequence_id,
        kind,
        payload: if kind == EventKind::Telemetry {
            Some(Payload::Telemetry(sample))
        } else {
            None
        },
    }
}

/// The events that a tick sends, given the engine as the tick leaves it, the
/// flags as the tick found them and the first free sequence id.
pub open spec fn tick_events(after: EngineView, flags: RunFlags, first_id: u64) -> Seq<Event> {
    let kinds = tick_kinds(after.counter, flags);
    Seq::new(kinds.len(), |i: int| tick_event(kinds[i], after.telemetry, (first_id + i) as u64))
}

/// The shared state after a tick that found it as `state` and sent `events`:
/// the engine has acted on the request, and the events have joined the
/// history.
pub open spec fn tick_state(state: StateView, events: Seq<Event>) -> StateView {
    StateView {
        flags: RunFlags { requested: state.flags.requested, running: state.flags.requested },
        next_sequence_id: (state.next_sequence_id + events.len()) as u64,
        sent: state.sent + events.map_values(
            |event: Event| SentEvent { event, running: state.flags.requested },
        ),
        ..state
    }
}

/// Whether a tick with the random draw `draw` takes the engine and the state
/// from the first pair to the second while sending `events`.
pub open spec fn tick_outcome(
    engine: EngineView,
    state: StateView,
    draw: u32,
    engine_after: EngineView,
    state_after: StateView,
    events: Seq<Event>,
) -> bool {
    &&& engine_after == tick_engine(engine, state.flags, jitter_of(draw) as i64)
    &&& events == tick_events(engine_after, state.flags, state.next_sequence_id)
    &&& state_after == tick_state(state, events)
}

/// Whether every sample among `events` was sent while a run was in progress,
/// given the state as the tick left it.
pub open spec fn samples_sent_in_a_run(events: Seq<Event>, state_after: StateView) -> bool {
    forall|i: int|
        0 <= i < events.len() && (#[trigger] events[i]).kind == EventKind::Telemetry
            ==> state_after.flags.running
}

/// Whether no sample among `events` is below the ground.
pub open spec fn samples_above_ground(events: Seq<Event>) -> bool {
    forall|i: int|
        0 <= i < events.len() ==> ((#[trigger] events[i]).payload matches Some(
            Payload::Telemetry(sample),
        ) ==> sample.altitude >= 0)
}

/// Whether a tick taken under `flags` is sure to leave the sample on or above
/// the ground: the run begins on this tick, or the sample is not below the
/// ground now and, where the tick advances it, does not break through.
pub open spec fn stays_above_ground(engine: EngineView, flags: RunFlags) -> bool {
    &&& (flags.requested && !flags.running) || engine.telemetry.altitude >= 0
    &&& flags.requested && flags.running ==> !engine.telemetry.breaks_through()
}

/// Every sample that a tick sends is sent while a run is in progress: the
/// tick sends a sample only under a request, and it leaves the state running
/// exactly when a run is requested.
pub proof fn lemma_tick_samples_only_while_running(after: EngineView, state: StateView)
    ensures
        samples_sent_in_a_run(
            tick_events(after, state.flags, state.next_sequence_id),
            tick_state(state, tick_events(after, state.flags, state.next_sequence_id)),
        ),
{
}

/// A run is announced once: the first tick under a request sends
/// `telemetry_started` and then the first sample, and a tick that finds the
/// run in progress sends a sample and no announcement.
pub proof fn lemma_start_announced_once(first: u64, later: u64)
    ensures
        tick_kinds(first, RunFlags { requested: true, running: false }) == seq![
            EventKind::TelemetryStarted,
            EventKind::Telemetry,
        ],
        tick_kinds(later, RunFlags { requested: true, running: true }) == seq![
            EventKind::Telemetry,
        ],
{
}

/// Two requests to start in a row, made while nothing runs, bring one
/// announcement: the second request reports that the run was requested
/// already, the next tick sends `telemetry_started` once, followed by the
/// first sample, and the tick after it sends a sample alone.
pub proof fn lemma_start_twice_announces_once(
    engine: EngineView,
    state: StateView,
    first_jitter: i64,
    second_jitter: i64,
)
    requires
        !state.flags.running,
    ensures
        ({
            let requested = state.after_start().after_start();
            let first_engine = tick_engine(engine, requested.flags, first_jitter);
            let first_events = tick_events(
                first_engine,
                requested.flags,
                requested.next_sequence_id,
            );
            let ticked = tick_state(requested, first_events);
            let second_engine = tick_engine(first_engine, ticked.flags, second_jitter);
            let second_events = tick_events(second_engine, ticked.flags, ticked.next_sequence_id);
            &&& state.after_start().start_status() == StartStatus::AlreadyRunning
            &&& first_events.len() == 2
            &&& first_events[0].kind == EventKind::TelemetryStarted
            &&& first_events[1].kind == EventKind::Telemetry
            &&& second_events.len() == 1
            &&& second_events[0].kind == EventKind::Telemetry
        }),
{
}

/// The end of a run is announced once, and a tick that finds nothing running
/// and nothing requested sends `idle` on every tenth tick and nothing on the
/// others.
pub proof fn lemma_stop_announced_once(first: u64, later: u64)
    ensures
        tick_kinds(first, RunFlags { requested: false, running: true }) == seq![
            EventKind::TelemetryStopped,
        ],
        tick_kinds(later, RunFlags { requested: false, running: false }) == (if later
            % IDLE_PERIOD == 0 {
            seq![EventKind::Idle]
        } else {
            Seq::<EventKind>::empty()
        }),
{
}

/// The sample of a run is never below the ground after a tick if it was not
/// before, unless the tick takes it through the ground while its new speed
/// points upwards, and so no sample that the tick sends is below the ground.
/// A run that begins on the tick starts on the ground, whatever the sample
/// was before.
pub proof fn lemma_tick_altitude_never_negative(
    engine: EngineView,
    flags: RunFlags,
    jitter: i64,
    first_id: u64,
)
    requires
        stays_above_ground(engine, flags),
    ensures
        tick_engine(engine, flags, jitter).telemetry.altitude >= 0,
        samples_above_ground(tick_events(tick_engine(engine, flags, jitter), flags, first_id)),
{
}

/// Calls `rand::random::<u32>()`, which draws from the thread's generator.
/// Any value may come back, so nothing is claimed of it.
#[verifier::external_body]
fn random_draw() -> (draw: u32)
{
    rand::random::<u32>()
}

impl View for SimulationEngine {
    type V = EngineView;

    closed spec fn view(&self) -> EngineView {
        EngineView { counter: self.counter, start: self.start, telemetry: self.telemetry }
    }
}

impl SimulationEngine {
    /// The invariant of the engine: no run began after the latest tick.
    pub open spec fn wf(&self) -> bool {
        self@.start <= self@.counter
    }

    /// Whether the next tick stays within the machine's limits: the elapsed
    /// time still fits in `u64`, and so do the sequence ids of its events.
    pub open spec fn can_tick(&self, state: &ServerState) -> bool {
        &&& self@.counter < MAX_TICKS
        &&& state@.next_sequence_id <= u64::MAX - MAX_EVENTS_PER_TICK
    }

    /// An engine that has not ticked yet.
    pub fn new() -> (engine: SimulationEngine)
        ensures
            engine.wf(),
            engine@ == (EngineView { counter: 0, start: 0, telemetry: Telemetry::spec_start() }),
    {
        SimulationEngine { counter: 0, start: 0, telemetry: Telemetry::start() }
    }

    /// Ticks since the engine was made.
    pub fn counter(&self) -> (counter: u64)
        ensures
            counter == self@.counter,
    {
        self.counter
    }

    /// The tick on which the current run, or else the last one, began.
    pub fn run_start(&self) -> (start: u64)
        ensures
            start == self@.start,
    {
        self.start
    }

    /// The latest sample.
    pub fn telemetry(&self) -> (sample: Telemetry)
        ensures
            sample == self@.telemetry,
    {
        self.telemetry
    }

    /// Tests `can_tick`.
    pub fn check_can_tick(&self, state: &ServerState) -> (ok: bool)
        ensures
            ok == self.can_tick(state),
    {
        self.counter < MAX_TICKS && state.events_sent() <= u64::MAX - MAX_EVENTS_PER_TICK
    }

    /// One tick with a given random draw: acts on the request that the flags
    /// hold, advances the run, and sends the tick's events to all listeners.
    /// Returns the events in the order in which they were sent.
    pub fn tick_with(&mut self, state: &mut ServerState, draw: u32) -> (events: Vec<Event>)
        requires
            old(self).wf(),
            old(state).wf(),
            old(self).can_tick(old(state)),
        ensures
            final(self).wf(),
            final(state).wf(),
            tick_outcome(old(self)@, old(state)@, draw, final(self)@, final(state)@, events@),
            samples_sent_in_a_run(events@, final(state)@),
            stays_above_ground(old(self)@, old(state)@.flags) ==> samples_above_ground(events@)
                && final(self)@.telemetry.altitude >= 0,
    {
        let ghost before = state@;
        let flags = state.flags();
        let mut events: Vec<Event> = Vec::new();
        self.counter = self.counter + 1;
        if flags.requested {
            if !flags.running {
                state.set_running(true);
                self.telemetry = Telemetry::start();
                self.start = self.counter;
                let started = state.send_event(EventKind::TelemetryStarted, None);
                events.push(started);
            }
            self.telemetry.advance(self.counter - self.start, jitter_from_draw(draw));
            let sample = state.send_event(
                EventKind::Telemetry,
                Some(Payload::Telemetry(self.telemetry)),
            );
            events.push(sample);
        } else if flags.running {
            state.set_running(false);
            let stopped = state.send_event(EventKind::TelemetryStopped, None);
            events.push(stopped);
        } else if self.counter % IDLE_PERIOD == 0 {
            let idle = state.send_event(EventKind::Idle, None);
            events.push(idle);
        }
        proof {
            let expected = tick_events(self@, before.flags, before.next_sequence_id);
            assert(events@ =~= expected);
            assert(state@.sent =~= tick_state(before, expected).sent);
        }
        events
    }

    /// One tick. The jitter comes from a fresh random draw, so the outcome is
    /// that of `tick_with` for some draw and not for a chosen one. What holds
    /// of every draw is stated outright: samples are sent only during a run,
    /// and none is below the ground unless the sample breaks through.
    pub fn tick(&mut self, state: &mut ServerState) -> (events: Vec<Event>)
        requires
            old(self).wf(),
            old(state).wf(),
            old(self).can_tick(old(state)),
        ensures
            final(self).wf(),
            final(state).wf(),
            exists|draw: u32|
                tick_outcome(
                    old(self)@,
                    old(state)@,
                    draw,
                    final(self)@,
                    final(state)@,
                    events@,
                ),
            samples_sent_in_a_run(events@, final(state)@),
            stays_above_ground(old(self)@, old(state)@.flags) ==> samples_above_ground(events@)
                && final(self)@.telemetry.altitude >= 0,
    {
        let draw = random_draw();
        self.tick_with(state, draw)
    }
}

} // verus!
