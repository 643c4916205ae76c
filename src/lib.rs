//! A static file server front door with path-prefix reverse proxying and a
//! single-page-application fallback: the routing, configuration and
//! forwarding decisions, with their contracts.

pub mod routes;
pub mod url_text;
pub mod config;
pub mod forward;
pub mod dispatch;
pub mod laws;
