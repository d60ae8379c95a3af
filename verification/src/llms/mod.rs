pub mod base;
pub mod gemini;
pub mod gemini_request;
pub mod gemini_response;
pub mod gemini_chat;
pub mod openai;
pub mod token_counter;

pub use base::{Message, Tool};
pub use gemini::GeminiConfig;
pub use openai::OpenAILLM;
pub use token_counter::{TokenCounter, TokenCounts};
