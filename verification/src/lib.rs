//! The generation pipeline of a commit assistant: it fits staged changes into a
//! model's token budget, builds the prompt for a task, checks what the model
//! answered and decides, step by step, what is done to the repository.
//!
//! Everything here works on plain values. Reading the repository, talking to the
//! model and asking the user are left to the caller, who performs the
//! [`pipeline::Action`]s that a task asks for and hands back the matching
//! [`pipeline::Event`]s.

pub mod apply;
pub mod changes;
pub mod completion;
pub mod config;
pub mod error;
pub mod orchestrator;
pub mod pipeline;
pub mod prompt;
pub mod runs;
pub mod text;
pub mod tokens;
