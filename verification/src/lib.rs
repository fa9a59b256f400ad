//! Routing and bookkeeping core of an LLM gateway.

pub mod api;
pub mod config;
pub mod router;
pub mod text;
