pub mod prompt_layer;
pub mod prompt_template;
pub mod templates;

pub use prompt_template::{
    get_and_render_prompt, get_prompt_template, prompt_variables_from_str_map, render_prompt,
    PromptTemplateClient, PromptTemplateData, PromptTemplateError, PromptVariable,
};
pub use templates::{PromptCategory, PromptPhase, PromptTemplate};
