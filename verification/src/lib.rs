//! A headless node for a Moltis gateway: the decisions of the node's session
//! (registration handshake, which gateway frames call for work, what each
//! command request asks for, and the replies the node sends back), and the
//! listing of connected nodes, each with a proved contract.
//!
//! The WebSocket connection, running processes and HTTP requests are left to the
//! caller, which hands the library plain values and performs what it decides.

pub mod json;
pub mod text;
pub mod support;
pub mod runner;
pub mod frames;
pub mod invoke;
pub mod session;
pub mod cli;
pub mod laws;
