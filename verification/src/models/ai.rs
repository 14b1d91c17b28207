//! The assistant's questions and answers.
use vstd::prelude::*;

verus! {

/// A question to the assistant.
#[derive(Debug, PartialEq, Eq)]
pub struct AiQueryRequest {
    pub query: String,
}

/// An action the assistant took while answering.
#[derive(Debug, PartialEq, Eq)]
pub struct AiAction {
    pub tool: String,
    pub description: String,
    pub status: String,
}

/// The assistant's answer.
#[derive(Debug, PartialEq, Eq)]
pub struct AiQueryResponse {
    pub answer: String,
    pub actions_taken: Vec<AiAction>,
    pub suggested_commands: Vec<String>,
}

} // verus!
