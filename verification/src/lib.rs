//! The decisions of an agent loop that lets a language model drive a shell:
//! what is sent to the model, how its reply is read, what becomes of a
//! command's result, and when the conversation ends.

pub mod directive;
pub mod error;
pub mod ollama;
pub mod openrouter;
pub mod outcome;
pub mod providers;
pub mod run;
pub mod setup;
pub mod text;
pub mod yaml;
