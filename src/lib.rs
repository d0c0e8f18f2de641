//! A host-based reverse proxy: a static, ordered routing table, first-match
//! route selection, translation of inbound requests into upstream requests,
//! and the per-request state machine that drives forwarding and streaming.

pub mod config;
pub mod debug;
pub mod forward;
pub mod proxy;
pub mod req;
pub mod router_page;
pub mod routing;
pub mod translate;
