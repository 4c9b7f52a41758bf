//! A client for a to-do service. Every operation is first described as a
//! request value (method, address, authentication, body and query); running
//! it over the network, and decoding the JSON that comes back, is left to the
//! caller's transport. What the server answers is handed back to the library,
//! which builds the resulting values.
pub mod api_helper;
mod client;
pub mod errors;
pub mod lemmas;
pub mod text;
pub mod types;

pub use client::Client;
