pub mod bindings;
pub mod json;
pub mod json_text;
pub mod keyed;
pub mod llms;
pub mod prompt_manager;
pub mod selection_utils;
pub mod sorting;
pub mod template_scan;
pub mod text;
pub mod utils;

pub use llms::{OpenAILLM, TokenCounter};
pub use utils::pydantic_helper;
