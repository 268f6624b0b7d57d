//! The coordinator side of a line-delimited JSON-RPC bridge to a child agent
//! process: the wire model, the table that pairs calls with their replies,
//! the decision of what each line read from the agent comes to, and the
//! per-project session bridge that turns chat messages into prompt turns and
//! streamed chunks into replies.

pub mod acp;
pub mod bridge;
pub mod bus;
pub mod chat;
pub mod client;
pub mod entity;
pub mod gateway;
pub mod json;
pub mod manager;
pub mod mcp;
pub mod table;
pub mod text;
