//! Conversation history and request enrichment for an LLM-backed chat front-end.
pub mod command_handler;
pub mod history;
pub mod parser;
pub mod pipeline;
pub mod store;
