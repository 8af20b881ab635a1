//! The conversation window and the interactive session built on it.

pub mod context;
pub mod display;
pub mod input;
pub mod session;
pub mod terminal;
pub mod window;

pub use context::{ChatContext, MAX_CONTEXT_MESSAGES};
pub use input::{Key, KeyPress};
pub use session::{Action, InputEvent, Phase, Session};
