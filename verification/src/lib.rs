//! The engine of an interactive chat session with a language model.
//!
//! The crate holds the parts of a terminal chat client that decide something:
//! the bounded conversation window that is sent to the model, and the session
//! state machine that turns keyboard events and completion results into
//! changes of the transcript. Reading keys, drawing and talking to the network
//! belong to the program around it.

pub mod chat;
pub mod cli;
pub mod llm;
pub mod text;
pub mod tools;
