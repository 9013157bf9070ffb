pub mod address;
pub mod channel;
pub mod common;
pub mod engine;
pub mod http;
pub mod http2;
pub mod http3;
pub mod laws;
pub mod registry;
pub mod tasks;
pub mod tcp;
pub mod udp;
pub mod websocket;
