//! The core of a JSON-RPC transport over one WebSocket connection, without
//! the I/O: the two queues between the caller and the socket, what the writer
//! and the reader loop decide at each turn, and how a received frame becomes
//! a response.

pub mod endpoint;
pub mod error;
pub mod frame;
pub mod laws;
pub mod model;
pub mod response;
pub mod trace;
pub mod ws_client;

pub use error::TransportError;
pub use frame::{CloseFrame, Frame};
pub use model::{Bridge, ConnectionState, Info, ReadError, ReaderAction, WriterAction, POLL_MILLIS};
pub use ws_client::{connect_failure, WsTransportClient};
