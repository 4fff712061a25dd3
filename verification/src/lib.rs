//! Routing and processing core for a message-forwarding service.
//!
//! Messages observed on a source channel are matched against a routing
//! index, passed through a pipeline of filters (which may reject) and
//! pipes (which build the outbound payload), and the resulting payloads
//! are handed back to the caller tagged with their destination channels.

pub mod config;
pub mod data;
pub mod filter;
pub mod filters;
pub mod helpers;
pub mod message;
pub mod moderation;
pub mod outside;
pub mod pipe;
pub mod pipeline;
pub mod pipes;
pub mod routing;
