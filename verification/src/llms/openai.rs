//! The OpenAI adapter. Generation is not configured in this library: every
//! request is answered with an error.
use vstd::prelude::*;

use crate::llms::base::LlmError;

verus! {

/// The OpenAI adapter; it keeps its API key.
pub struct OpenAILLM {
    _api_key: String,
}

impl OpenAILLM {
    /// The key the adapter was made with.
    pub closed spec fn api_key(&self) -> Seq<char> {
        self._api_key@
    }

    pub fn new(api_key: String) -> (r: OpenAILLM)
        ensures
            r.api_key() == api_key@,
    {
        OpenAILLM { _api_key: api_key }
    }

    /// The model used for every kind of request.
    pub fn get_model(&self, _cheap: bool, _reasoning: bool, _multimodal: bool) -> (r: String)
        ensures
            r@ == "gpt-5-nano"@,
    {
        String::from_str("gpt-5-nano")
    }
}

/// The requests an adapter answers.
#[derive(Clone, Copy, Debug, PartialEq, Eq, Structural)]
pub enum AdapterCall {
    Generate,
    GenerateTyped,
    CompletionCall,
    VideoGeneration,
}

/// The error text of the OpenAI adapter for each request.
pub open spec fn openai_refusal_text(call: AdapterCall) -> Seq<char> {
    match call {
        AdapterCall::Generate => "OpenAI generation not configured in Rust implementation"@,
        AdapterCall::GenerateTyped => "OpenAI typed generation not implemented"@,
        AdapterCall::CompletionCall => "OpenAI completion call not implemented"@,
        AdapterCall::VideoGeneration => "OpenAI does not support video generation"@,
    }
}

impl OpenAILLM {
    /// The answer of the adapter to a request: an error, whatever was asked.
    pub fn refusal(&self, call: AdapterCall) -> (e: LlmError)
        ensures
            e matches LlmError::Request(m) && m@ == openai_refusal_text(call),
    {
        let m = match call {
            AdapterCall::Generate => "OpenAI generation not configured in Rust implementation",
            AdapterCall::GenerateTyped => "OpenAI typed generation not implemented",
            AdapterCall::CompletionCall => "OpenAI completion call not implemented",
            AdapterCall::VideoGeneration => "OpenAI does not support video generation",
        };
        LlmError::Request(String::from_str(m))
    }
}

} // verus!
