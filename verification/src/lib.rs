//! Native backend shim for a desktop application shell.
//!
//! The library exposes the logic behind a handful of remote-procedure
//! commands — login, token verification, fetching the user's watchers,
//! and a monitoring flag — together with an adapter that persists the
//! access token in the operating system's credential store. The HTTP
//! and windowing glue around it lives outside; this crate holds the
//! data shapes, the wire format, and the decisions, each with its
//! contract.

pub mod api;
pub mod codec;
pub mod credstore;
pub mod dto;
pub mod errors;
pub mod json;
pub mod session;
