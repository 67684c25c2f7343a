//! A simulated sensor telemetry source: a tick-driven flight model whose
//! events are fanned out to any number of listeners over a broadcast channel.
//!
//! The crate holds the rules of the simulation and states them as contracts:
//! which events a tick emits, how run flags and configuration change, how
//! sequence ids are handed out, and how the flight model evolves. Timers, locks
//! and the transport that carries events to listeners belong to the caller.

pub mod config;
pub mod engine;
pub mod event;
pub mod hub;
pub mod ranges;
pub mod session;
pub mod state;
pub mod telemetry;
