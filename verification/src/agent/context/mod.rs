//! What an agent remembers during a run.

pub mod conversation;
pub mod memory;

pub use conversation::{ConversationContext, ConversationMessage, MessageRole};
pub use memory::{MemoryEntry, ShortTermMemory};
