//! The conversation vocabulary shared by the generators and the dispatch
//! engine.
use vstd::prelude::*;
use crate::invocation::Invocation;
use crate::namespaces::ActionOutput;

verus! {

/// One conversation turn: the model's own text (with the invocation it made,
/// if any), or an action's result fed back to it.
#[derive(Debug, Clone, PartialEq)]
pub enum Message {
    Agent(String, Option<Invocation>),
    Feedback(ActionOutput, Option<Invocation>),
}

/// Input to one generator call; `history` is in chronological order.
#[derive(Debug, Clone, PartialEq)]
pub struct ChatOptions {
    pub system_prompt: Option<String>,
    pub prompt: String,
    pub history: Vec<Message>,
}

/// Token counters of one generator call.
#[derive(Debug, Clone, Copy, PartialEq, Eq, Structural)]
pub struct Usage {
    pub input_tokens: u32,
    pub output_tokens: u32,
}

/// Output of one generator call.
#[derive(Debug, Clone)]
pub struct ChatResponse {
    pub content: String,
    pub invocations: Vec<Invocation>,
    pub usage: Option<Usage>,
}

/// What a provider session supports, as probed once.
#[derive(Debug, Clone, Copy, PartialEq, Eq, Structural)]
pub struct SupportedFeatures {
    pub system_prompt: bool,
    pub tools: bool,
}

} // verus!
