//! A client for a line-oriented chat protocol: decoding inbound wire
//! messages into protocol events, encoding outgoing requests, and the
//! decisions of the single consumer that merges network and local input.
pub mod error;
pub mod event;
pub mod wire;
pub mod expect;
pub mod decode;
pub mod encode;
pub mod dispatch;
pub mod laws;
