//! The body of a bus message: its payload bytes under one byte order, bound to
//! the message that declares their signature, and decoded into typed values.

pub mod body;
pub mod codec;
pub mod data;
pub mod decode;
pub mod error;
pub mod laws;
pub mod message;
pub mod order;
pub mod wire;

pub use body::Body;
pub use data::Data;
pub use decode::Decode;
pub use error::{Error, Failure};
pub use message::Message;
pub use order::ByteOrder;
