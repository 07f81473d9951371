//! Named, tagged system prompts: the prompt entity, and a store that keeps a
//! collection of prompts keyed by id with at most one default entry.

pub mod collection;
pub mod error;
pub mod prompt;
pub mod requests;
pub mod store;
pub mod text;
pub mod timestamp;

pub use prompt::{PromptView, SystemPrompt};
pub use timestamp::Timestamp;
pub use error::ConfigError;
pub use requests::{
    CreateSystemPromptRequest, SearchPromptsRequest, SetDefaultRequest, UpdateSystemPromptRequest,
};
pub use store::SystemPromptManager;
