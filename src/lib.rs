//! Execution core of an agent runtime: decoding of model tool calls, the
//! namespace/action registry, tool-schema synthesis, rate-limit recovery
//! decisions, the action dispatch state machine and the event vocabulary.
pub mod chat;
pub mod dispatch;
pub mod error;
pub mod events;
pub mod generator;
pub mod invocation;
pub mod namespaces;
pub mod ratelimit;
pub mod registry;
pub mod schema;
pub mod state;
pub mod storage;
pub mod text;
pub mod translate;
