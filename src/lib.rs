//! Translates natural-language shell requests into shell commands through a
//! remote language model, and drives what the user does with the answer.
//!
//! The server checks a shared secret, renders a role prompt for the caller's
//! OS and shell, asks a provider, and extracts the command from the reply.
//! The client sends the request and lets the user execute, explain, revise
//! or cancel the command. Network, terminal and process work is left to the
//! caller: the functions here take and return plain values.
use vstd::prelude::*;

pub mod auth;
pub mod client;
pub mod client_cli;
pub mod command;
pub mod common;
pub mod extract;
pub mod interaction;
pub mod json;
pub mod notifier;
pub mod prompts;
pub mod providers;
pub mod server;
pub mod server_cli;
pub mod text;

verus! {

/// A bare request payload.
pub struct InputData {
    pub data: String,
}

/// A bare answer payload.
pub struct OutputData {
    pub result: String,
}

} // verus!
