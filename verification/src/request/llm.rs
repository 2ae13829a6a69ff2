//! What the language model answers, and why asking it can fail.

use vstd::prelude::*;
use vstd::string::*;

verus! {

/// Why the language model gave no usable answer.
#[derive(Debug, Clone, PartialEq, Eq)]
pub enum LLMError {
    /// The key of the inference service is not set.
    MissingApiKey,
    /// The system prompt could not be read.
    SystemPromptReadError(String),
    /// The call to the inference service failed.
    APICallError(String),
    /// The answer of the inference service could not be read.
    ResponseParseError(String),
}

impl LLMError {
    /// The text of the error.
    pub open spec fn text(&self) -> Seq<char> {
        match *self {
            LLMError::MissingApiKey => "Missing GROQ_API_KEY in environment"@,
            LLMError::SystemPromptReadError(detail) => "Failed to read system prompt: "@
                + detail@,
            LLMError::APICallError(detail) => "LLM Inference API Error:"@ + detail@,
            LLMError::ResponseParseError(detail) => "Failed to parse LLM response: "@ + detail@,
        }
    }

    /// Writes the error out.
    pub fn message(&self) -> (text: String)
        ensures
            text@ == self.text(),
    {
        match self {
            LLMError::MissingApiKey => String::from_str("Missing GROQ_API_KEY in environment"),
            LLMError::SystemPromptReadError(detail) => String::from_str(
                "Failed to read system prompt: ",
            ).concat(detail.as_str()),
            LLMError::APICallError(detail) => String::from_str("LLM Inference API Error:").concat(
                detail.as_str(),
            ),
            LLMError::ResponseParseError(detail) => String::from_str(
                "Failed to parse LLM response: ",
            ).concat(detail.as_str()),
        }
    }
}

/// The function that the model wants called, and its arguments as JSON text.
#[derive(Debug, Clone, PartialEq, Eq)]
pub struct FunctionCall {
    pub name: String,
    pub arguments: String,
}

/// One tool call of the model's answer.
#[derive(Debug, Clone, PartialEq, Eq)]
pub struct ToolCall {
    pub id: String,
    pub function: FunctionCall,
}

/// The tool calls of the model's answer, in the order it gave them.
#[derive(Debug, Clone, PartialEq, Eq)]
pub struct LLMResponse {
    pub tool_calls: Vec<ToolCall>,
}

} // verus!
