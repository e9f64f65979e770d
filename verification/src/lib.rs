use vstd::prelude::*;

pub mod text;
pub mod messages;
pub mod memory;
pub mod maps;
pub mod context;
pub mod paths;
pub mod folders;
pub mod schema;
pub mod tools;
pub mod providers;
pub mod prompts;
pub mod skills;
pub mod stream;
pub mod client;
pub mod executor;
pub mod agent_chat;
pub mod chat_flow;
pub mod config;
pub mod api;
pub mod ids;
pub mod log;
pub mod service;

verus! {
} // verus!
