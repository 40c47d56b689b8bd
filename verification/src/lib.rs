//! File Transfer over TCP (FTCP): the wire protocol and the decisions of a
//! server that speaks it, with their contracts.

pub mod ftcp;
pub mod wire;
pub mod externs;
pub mod client;
pub mod text;
pub mod server_details;
pub mod server;
pub mod server_implementation;
