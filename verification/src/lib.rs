//! The decision core of a command-line chat client for a locally served
//! model: resolving the host and model from overrides, assembling the prompt
//! from arguments and piped context, building and encoding the one chat
//! request, ordering and rendering the model listing, and fixing what each
//! kind of ending prints and with which exit code.
pub mod compose;
pub mod config;
pub mod json;
pub mod models;
pub mod outcome;
pub mod plan;
pub mod request;
pub mod text;
