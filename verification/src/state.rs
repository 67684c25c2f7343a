//! The state that requests, the engine and listeners share: the configuration,
//! the run flags, the sending end of the channel and the count of events sent.
//!
//! The state is meant to sit behind one lock. Every operation here is a
//! single step under exclusive access, so a change of the state and the event
//! that announces it cannot be pulled apart by another writer.

use crate::config::{Configuration, PartialConfiguration};
use crate::event::{payload_fits, Event, EventKind, Payload};
use crate::hub::{channel_position, new_receiver, open_channel, publish, receiver_cursor};
use rocket::tokio::sync::broadcast::{Receiver, Sender};
use vstd::prelude::*;

verus! {

/// Number of events that the channel keeps for a slow listener by default.
pub const DEFAULT_CAPACITY: usize = 100;

/// The two run flags. `requested` is what the last start or stop request asked
/// for; `running` is what the engine has acted on. They differ from a request
/// until the next tick.
#[derive(Clone, Copy, Debug, PartialEq, Eq, Structural)]
pub struct RunFlags {
    pub requested: bool,
    pub running: bool,
}

/// Outcome of a request to start.
#[derive(Clone, Copy, Debug, PartialEq, Eq, Structural)]
pub enum StartStatus {
    /// A run was already requested; nothing changed.
    AlreadyRunning,
    /// A run is now requested.
    Started,
}

/// Outcome of a request to stop.
#[derive(Clone, Copy, Debug, PartialEq, Eq, Structural)]
pub enum StopStatus {
    /// No run was requested; nothing changed.
    AlreadyStopped,
    /// The run is no longer requested.
    Stopped,
}

/// An entry of the history of sent events: the event, and whether a run was
/// in progress when it was sent.
pub struct SentEvent {
    pub event: Event,
    pub running: bool,
}

/// The shared state as contracts see it. `sent` is the history of all events
/// handed to the channel, oldest first, whether or not anyone was listening.
pub struct StateView {
    pub flags: RunFlags,
    pub configuration: Configuration,
    pub next_sequence_id: u64,
    pub sent: Seq<SentEvent>,
}

/// The shared state.
pub struct ServerState {
    telemetry_running: bool,
    telemetry_requested: bool,
    configuration: Configuration,
    queue: Sender<Event>,
    event_id: u64,
    sent: Ghost<Seq<SentEvent>>,
}

/// Whether a history is one that the state can have: the events carry the
/// sequence ids 0, 1, 2, ... up to `next_sequence_id`, each carries what its
/// kind calls for, and every sample was sent during a run.
pub open spec fn history_in_order(sent: Seq<SentEvent>, next_sequence_id: u64) -> bool {
    &&& sent.len() == next_sequence_id
    &&& forall|i: int|
        0 <= i < sent.len() ==> {
            &&& (#[trigger] sent[i]).event.sequence_id == i
            &&& sent[i].event.well_formed()
            &&& (sent[i].event.kind == EventKind::Telemetry ==> sent[i].running)
        }
}

/// The sequence ids of the events sent run on without a gap: an event sent
/// `j - i` places after another carries a sequence id higher by exactly that
/// much. So whoever sees the events in the order sent sees strictly increasing
/// ids, and whoever misses none of a stretch sees consecutive ones.
pub proof fn lemma_sequence_ids_in_order(
    sent: Seq<SentEvent>,
    next_sequence_id: u64,
    i: int,
    j: int,
)
    requires
        history_in_order(sent, next_sequence_id),
        0 <= i <= j < sent.len(),
    ensures
        sent[j].event.sequence_id == sent[i].event.sequence_id + (j - i),
        i < j ==> sent[i].event.sequence_id < sent[j].event.sequence_id,
{
}

/// No sample in the history was sent while no run was in progress.
pub proof fn lemma_samples_only_while_running(
    sent: Seq<SentEvent>,
    next_sequence_id: u64,
    i: int,
)
    requires
        history_in_order(sent, next_sequence_id),
        0 <= i < sent.len(),
        sent[i].event.kind == EventKind::Telemetry,
    ensures
        sent[i].running,
{
}

impl StartStatus {
    /// The status in words.
    pub open spec fn spec_message(self) -> Seq<char> {
        match self {
            StartStatus::AlreadyRunning => "Telemetry already running"@,
            StartStatus::Started => "Telemetry started"@,
        }
    }

    pub fn message(self) -> (message: &'static str)
        ensures
            message@ == self.spec_message(),
    {
        match self {
            StartStatus::AlreadyRunning => "Telemetry already running",
            StartStatus::Started => "Telemetry started",
        }
    }
}

impl StopStatus {
    /// The status in words.
    pub open spec fn spec_message(self) -> Seq<char> {
        match self {
            StopStatus::AlreadyStopped => "Telemetry already stopped"@,
            StopStatus::Stopped => "Telemetry stopped"@,
        }
    }

    pub fn message(self) -> (message: &'static str)
        ensures
            message@ == self.spec_message(),
    {
        match self {
            StopStatus::AlreadyStopped => "Telemetry already stopped",
            StopStatus::Stopped => "Telemetry stopped",
        }
    }
}

impl StateView {
    /// What a request to start reports: whether a run was requested already.
    pub open spec fn start_status(self) -> StartStatus {
        if self.flags.requested {
            StartStatus::AlreadyRunning
        } else {
            StartStatus::Started
        }
    }

    /// The state after a request to start: a run is requested, and nothing
    /// else has changed.
    pub open spec fn after_start(self) -> StateView {
        StateView { flags: RunFlags { requested: true, running: self.flags.running }, ..self }
    }

    /// What a request to stop reports: whether a run was requested at all.
    pub open spec fn stop_status(self) -> StopStatus {
        if self.flags.requested {
            StopStatus::Stopped
        } else {
            StopStatus::AlreadyStopped
        }
    }

    /// The state after a request to stop: no run is requested, and nothing
    /// else has changed.
    pub open spec fn after_stop(self) -> StateView {
        StateView { flags: RunFlags { requested: false, running: self.flags.running }, ..self }
    }
}

/// A second request to start in a row reports that the run was requested
/// already and changes nothing; likewise a second request to stop.
pub proof fn lemma_repeated_request_changes_nothing(state: StateView)
    ensures
        state.after_start().start_status() == StartStatus::AlreadyRunning,
        state.after_start().after_start() == state.after_start(),
        state.after_stop().stop_status() == StopStatus::AlreadyStopped,
        state.after_stop().after_stop() == state.after_stop(),
{
}

impl View for ServerState {
    type V = StateView;

    closed spec fn view(&self) -> StateView {
        StateView {
            flags: RunFlags {
                requested: self.telemetry_requested,
                running: self.telemetry_running,
            },
            configuration: self.configuration,
            next_sequence_id: self.event_id,
            sent: self.sent@,
        }
    }
}

impl ServerState {
    /// The invariant of the state: its history is in order.
    pub open spec fn wf(&self) -> bool {
        history_in_order(self@.sent, self@.next_sequence_id)
    }

    /// A fresh state: nothing requested, nothing running, the default
    /// configuration, no event sent yet, and a channel that keeps at least
    /// `capacity` events for each listener.
    pub fn new(capacity: usize) -> (state: ServerState)
        requires
            0 < capacity <= usize::MAX / 2,
        ensures
            state.wf(),
            state@.flags == (RunFlags { requested: false, running: false }),
            state@.configuration.is_default(),
            state@.next_sequence_id == 0,
            state@.sent == Seq::<SentEvent>::empty(),
    {
        let (queue, _first) = open_channel(capacity);
        ServerState {
            telemetry_running: false,
            telemetry_requested: false,
            configuration: Configuration::default(),
            queue,
            event_id: 0,
            sent: Ghost(Seq::empty()),
        }
    }

    /// The configuration and the run flags as they are now.
    pub fn snapshot(&self) -> (snapshot: (Configuration, RunFlags))
        ensures
            snapshot.0 == self@.configuration,
            snapshot.1 == self@.flags,
    {
        (
            self.configuration.clone(),
            RunFlags { requested: self.telemetry_requested, running: self.telemetry_running },
        )
    }

    /// The run flags as they are now.
    pub fn flags(&self) -> (flags: RunFlags)
        ensures
            flags == self@.flags,
    {
        RunFlags { requested: self.telemetry_requested, running: self.telemetry_running }
    }

    /// The number of events sent so far, which is the sequence id of the next.
    pub fn events_sent(&self) -> (count: u64)
        ensures
            count == self@.next_sequence_id,
    {
        self.event_id
    }

    /// Asks for a run. Where one is already requested nothing changes.
    pub fn request_start(&mut self) -> (status: StartStatus)
        ensures
            status == old(self)@.start_status(),
            final(self)@ == old(self)@.after_start(),
    {
        if self.telemetry_requested {
            return StartStatus::AlreadyRunning;
        }
        self.telemetry_requested = true;
        StartStatus::Started
    }

    /// Asks for the run to end. Where none is requested nothing changes.
    pub fn request_stop(&mut self) -> (status: StopStatus)
        ensures
            status == old(self)@.stop_status(),
            final(self)@ == old(self)@.after_stop(),
    {
        if !self.telemetry_requested {
            return StopStatus::AlreadyStopped;
        }
        self.telemetry_requested = false;
        StopStatus::Stopped
    }

    /// Records that the engine has begun or ended a run.
    pub(crate) fn set_running(&mut self, running: bool)
        ensures
            final(self)@ == (StateView {
                flags: RunFlags { requested: old(self)@.flags.requested, running },
                ..old(self)@
            }),
    {
        self.telemetry_running = running;
    }

    /// Hands out the next sequence id and moves on to the one after it.
    fn next_sequence_id(&mut self) -> (id: u64)
        requires
            old(self).event_id < u64::MAX,
        ensures
            id == old(self).event_id,
            *final(self) == (ServerState { event_id: (id + 1) as u64, ..*old(self) }),
    {
        let id = self.event_id;
        self.event_id = id + 1;
        id
    }

    /// Sends one event to all listeners and returns it as sent. The event
    /// takes the next sequence id. With no listener the event is dropped,
    /// which is no failure: the history and the sequence ids move on alike.
    pub fn send_event(&mut self, kind: EventKind, payload: Option<Payload>) -> (event: Event)
        requires
            old(self).wf(),
            old(self)@.next_sequence_id < u64::MAX,
            payload_fits(kind, payload),
            kind == EventKind::Telemetry ==> old(self)@.flags.running,
        ensures
            final(self).wf(),
            event == (Event { sequence_id: old(self)@.next_sequence_id, kind, payload }),
            final(self)@ == (StateView {
                next_sequence_id: (old(self)@.next_sequence_id + 1) as u64,
                sent: old(self)@.sent.push(
                    SentEvent { event, running: old(self)@.flags.running },
                ),
                ..old(self)@
            }),
    {
        let sequence_id = self.next_sequence_id();
        let event = Event { sequence_id, kind, payload };
        publish(&mut self.queue, event.clone());
        proof {
            self.sent@ = self.sent@.push(SentEvent { event, running: self.telemetry_running });
        }
        event
    }

    /// Applies a partial update to the configuration, announces the result to
    /// all listeners in one `parameters` event, and returns it.
    pub fn merge_configuration(&mut self, partial: PartialConfiguration) -> (configuration:
        Configuration)
        requires
            old(self).wf(),
            old(self)@.next_sequence_id < u64::MAX,
        ensures
            final(self).wf(),
            configuration == old(self)@.configuration.merged(partial),
            final(self)@ == (StateView {
                configuration,
                next_sequence_id: (old(self)@.next_sequence_id + 1) as u64,
                sent: old(self)@.sent.push(
                    SentEvent {
                        event: Event {
                            sequence_id: old(self)@.next_sequence_id,
                            kind: EventKind::Parameters,
                            payload: Some(Payload::Parameters(configuration.spec_parameters())),
                        },
                        running: old(self)@.flags.running,
                    },
                ),
                ..old(self)@
            }),
    {
        self.configuration.merge(partial);
        let parameters = self.configuration.parameters();
        let _event = self.send_event(EventKind::Parameters, Some(Payload::Parameters(parameters)));
        self.configuration.clone()
    }

    /// The place in the channel's stream at which the next event that the
    /// channel takes in will stand. Only sending an event moves it.
    pub closed spec fn channel_position(&self) -> u64 {
        channel_position(self.queue)
    }

    /// A new listener's end of the channel. It reads from the place where the
    /// channel stands now, so it sees the events sent from now on and none of
    /// the history.
    pub fn subscribe(&self) -> (receiver: Receiver<Event>)
        ensures
            receiver_cursor(receiver) == self.channel_position(),
    {
        new_receiver(&self.queue)
    }
}

} // verus!
