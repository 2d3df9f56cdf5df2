//! Adapter for tools served by a remote context server.
//!
//! A remote server advertises tools; an agent's tool loop calls them through
//! this crate. The crate decides, from layered configuration, whether a tool
//! call needs the user's confirmation, normalizes the server's heterogeneous
//! reply parts into a single content value, and turns the state of the
//! server's connection into the typed outcome of one invocation. The hosting
//! application performs the actual transport and hands the results back in.

pub mod confirmation;
pub mod json;
pub mod response;
pub mod invocation;
pub mod adapter;
