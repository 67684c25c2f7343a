//! The events that the simulation sends to its listeners.

use crate::config::Parameters;
use crate::telemetry::Telemetry;
use vstd::prelude::*;

verus! {

/// What an event reports.
#[derive(Clone, Copy, Debug, PartialEq, Eq, Structural)]
pub enum EventKind {
    /// A run has begun.
    TelemetryStarted,
    /// One sample of a run.
    Telemetry,
    /// A run has ended.
    TelemetryStopped,
    /// No run is in progress.
    Idle,
    /// The configuration was updated.
    Parameters,
}

/// The record that an event carries.
#[derive(Debug, PartialEq, Eq)]
pub enum Payload {
    Telemetry(Telemetry),
    Parameters(Parameters),
}

/// One event. `sequence_id` numbers the events of all kinds in the order in
/// which they were sent.
#[derive(Debug, PartialEq, Eq)]
pub struct Event {
    pub sequence_id: u64,
    pub kind: EventKind,
    pub payload: Option<Payload>,
}

/// Whether `payload` is what an event of kind `kind` carries: a sample with
/// `Telemetry`, the parameters with `Parameters`, and nothing with the rest.
pub open spec fn payload_fits(kind: EventKind, payload: Option<Payload>) -> bool {
    match kind {
        EventKind::Telemetry => payload matches Some(Payload::Telemetry(_)),
        EventKind::Parameters => payload matches Some(Payload::Parameters(_)),
        _ => payload is None,
    }
}

impl EventKind {
    /// The name under which listeners know the kind.
    pub open spec fn spec_name(self) -> Seq<char> {
        match self {
            EventKind::TelemetryStarted => "telemetry_started"@,
            EventKind::Telemetry => "telemetry"@,
            EventKind::TelemetryStopped => "telemetry_stopped"@,
            EventKind::Idle => "idle"@,
            EventKind::Parameters => "parameters"@,
        }
    }

    pub fn name(self) -> (name: &'static str)
        ensures
            name@ == self.spec_name(),
    {
        match self {
            EventKind::TelemetryStarted => "telemetry_started",
            EventKind::Telemetry => "telemetry",
            EventKind::TelemetryStopped => "telemetry_stopped",
            EventKind::Idle => "idle",
            EventKind::Parameters => "parameters",
        }
    }
}

impl Clone for Payload {
    fn clone(&self) -> (copy: Payload)
        ensures
            copy == *self,
    {
        match self {
            Payload::Telemetry(sample) => Payload::Telemetry(*sample),
            Payload::Parameters(parameters) => Payload::Parameters(parameters.clone()),
        }
    }
}

impl Clone for Event {
    fn clone(&self) -> (copy: Event)
        ensures
            copy == *self,
    {
        let payload = match &self.payload {
            Some(payload) => Some(payload.clone()),
            None => None,
        };
        Event { sequence_id: self.sequence_id, kind: self.kind, payload }
    }
}

impl Event {
    /// Whether the event carries what its kind calls for.
    pub open spec fn well_formed(self) -> bool {
        payload_fits(self.kind, self.payload)
    }
}

} // verus!
