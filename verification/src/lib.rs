//! A protocol engine for a JSON-RPC tool and resource exchange server:
//! capability negotiation, the client registry, sandboxed resource access,
//! prompt templates, chat aggregation and the connection lifecycle.

pub mod text;
pub mod types;
pub mod providers;
pub mod prompts;
pub mod clients;
pub mod capabilities;
pub mod protocol;
pub mod server;
pub mod commands;
