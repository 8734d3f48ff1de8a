//! A tiny static-page HTTP responder: request-line routing, page selection
//! and response framing, with the worker pool that serves connections.

pub mod response;
pub mod routing;
pub mod pool;
