//! wRPC transport for Cloudflare Durable Objects: the message model, the
//! routing and framing rules, and the decisions of the client, the handler
//! and the WebSocket transport, each with a checked contract.

pub mod bindings;
pub mod client;
pub mod counter;
pub mod error;
pub mod handler;
pub mod json;
pub mod laws;
pub mod message;
pub mod router;
pub mod text;
pub mod websocket;

pub use error::Error;
pub use client::{ClientBuilder, DurableObjectClient};
pub use handler::is_wrpc_request;
pub use message::{WrpcEnvelope, WrpcRequest, WrpcResponse};
pub use router::WrpcRouter;
pub use websocket::{WrpcWebSocket, WrpcWebSocketHandler};
