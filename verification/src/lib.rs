//! Greeting programs for an on-chain runtime.
//!
//! Each program module declares the address it is deployed under and exposes
//! stateless entry points. An entry point takes the invocation context, reads
//! nothing but the identifier of the invoked program, and yields the single
//! line that the host is to write to its log. No entry point can fail.
pub mod address;
pub mod context;
pub mod error;
pub mod message;
pub mod a1;
pub mod a2;
pub mod a3;
