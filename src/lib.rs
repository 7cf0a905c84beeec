//! The protocol layer of a code-intelligence server that speaks the Model Context
//! Protocol (JSON-RPC 2.0) over line-delimited stdio: request dispatch, capability
//! negotiation, resource subscriptions, prompt composition and argument completion.
//!
//! The index engine stays outside: handling a request either answers it at once or
//! names one engine call ([`engine::EngineCall`]); the caller performs it and hands the
//! answer ([`engine::EngineReply`]) to [`server::McpServer::resume`], until a response
//! comes out.
use vstd::prelude::*;

pub mod json;
pub mod text;
pub mod rpc;
pub mod engine;
pub mod tools;
pub mod resources;
pub mod prompts;
pub mod completion;
pub mod step;
pub mod server;
pub mod resume;
pub mod laws;

pub use crate::rpc::{JsonRpcError, JsonRpcRequest, JsonRpcResponse};
pub use crate::server::McpServer;

verus! {

} // verus!
