//! Client runtime for the Freta memory-forensics service.
//!
//! The crate holds the logic of the client: credential lifetime decisions,
//! response classification, cursor pagination, job monitoring, block
//! planning for blob transfers, webhook payload authentication and the
//! service's data model. Each operation states its behaviour in a contract.
pub mod memory;
pub mod config;
pub mod error;
pub mod text;
pub mod auth;
pub mod models;
pub mod transport;
pub mod pagination;
pub mod monitor;
pub mod blob;
pub mod webhooks;
pub mod service;
pub mod analysis;

pub use crate::config::{ClientId, Config, Secret};
pub use crate::error::Error;
pub use crate::models::{Image, ImageFormat, ImageId, ImageState, OwnerId};
