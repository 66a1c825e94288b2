//! Prompts: named, parameterised templates that produce chat-style messages.

pub mod provider;
pub mod providers;
pub mod types;

pub use provider::PromptProvider;
pub use providers::filesystem::FileSystemPromptProvider;
pub use types::{Arguments, Error, MessageContent, Prompt, PromptArgument, PromptMessage};
