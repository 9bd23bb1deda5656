//! Verified core of a host-routing reverse proxy with TLS certificate management.
pub mod config;
pub mod proxy_core;
pub mod error;
pub mod services;
pub mod text;

pub use error::{Error, Result};
