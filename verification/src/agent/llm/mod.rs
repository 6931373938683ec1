//! What the library says to language models and reads from them.

pub mod autoglm_client;
pub mod client;
pub mod parser;
pub mod prompts;
pub mod providers;
pub mod types;

pub use autoglm_client::AutoGLMClient;
pub use client::OpenAIClient;
pub use prompts::{
    get_auxiliary_system_prompt, get_execution_system_prompt, get_main_system_prompt,
    get_planning_system_prompt,
};
pub use providers::{create_autoglm_client, create_model_client, ModelClientKind};
pub use types::ModelConfig;
