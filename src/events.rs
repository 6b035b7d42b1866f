//! The closed set of events that the core publishes, and their timestamps.
use vstd::prelude::*;
use crate::chat::ChatOptions;
use crate::invocation::Invocation;
use crate::namespaces::{ActionOutput, StorageType};

verus! {

/// Counters of a task's activity.
#[derive(Debug, Clone, Copy, Default, PartialEq, Eq, Structural)]
pub struct Metrics {
    pub valid_actions: u64,
    pub errored_actions: u64,
    pub unknown_actions: u64,
    pub timedout_actions: u64,
}

/// A snapshot of the conversation and of the state's maps.
#[derive(Debug, Clone)]
pub struct StateUpdate {
    pub chat: ChatOptions,
    pub globals: std::collections::HashMap<String, String>,
    pub variables: std::collections::HashMap<String, String>,
}

/// Every state transition the core reports; durations are in milliseconds.
#[derive(Debug, Clone)]
pub enum EventType {
    /// A task started; holds the task's name.
    TaskStarted(String),
    MetricsUpdate(Metrics),
    StorageUpdate {
        storage_name: String,
        storage_type: StorageType,
        key: String,
        prev: Option<String>,
        new: Option<String>,
    },
    StateUpdate(StateUpdate),
    EmptyResponse,
    Thinking(String),
    Sleeping(usize),
    InvalidResponse(String),
    InvalidAction { invocation: Invocation, error: Option<String> },
    ActionTimeout { invocation: Invocation, elapsed_ms: u64 },
    ActionExecuting { invocation: Invocation },
    ActionExecuted {
        invocation: Invocation,
        error: Option<String>,
        result: Option<ActionOutput>,
        elapsed_ms: u64,
        complete_task: bool,
    },
    TaskComplete { impossible: bool, reason: Option<String> },
}

/// An event with its time, in seconds since the Unix epoch.
#[derive(Debug, Clone)]
pub struct Event {
    pub timestamp: u64,
    pub event: EventType,
}

/// Relies on `std::time::SystemTime::now`: the seconds elapsed since the Unix
/// epoch, or 0 where the clock stands before it. Nothing is known of the value.
#[verifier::external_body]
fn unix_time_secs() -> (r: u64) {
    std::time::SystemTime::now().duration_since(std::time::UNIX_EPOCH).map(|d| d.as_secs()).unwrap_or(0)
}

impl Event {
    /// Stamps `event` with the current time.
    pub fn new(event: EventType) -> (r: Event)
        ensures
            r.event == event,
    {
        Event::at(unix_time_secs(), event)
    }

    /// Stamps `event` with `timestamp`.
    pub fn at(timestamp: u64, event: EventType) -> (r: Event)
        ensures
            r.event == event,
            r.timestamp == timestamp,
    {
        Event { timestamp, event }
    }
}

} // verus!
