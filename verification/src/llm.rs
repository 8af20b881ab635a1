//! Messages exchanged with the model, the prompt that frames them, and the
//! meaning of the service's answers.

pub mod completion;
pub mod message;
pub mod prompt;

pub use completion::{CompletionError, ChatRequest};
pub use message::{ChatMessage, Role, Turn};
pub use prompt::{create_prompt, system_prompt};
