//! Batch image description through vision-language-model servers.
//!
//! The library holds the decisions of the pipeline: sniffing image formats,
//! validating a prompt configuration, building the request of each wire
//! protocol, reading the reply envelope, and driving a batch of paths with
//! per-item failure isolation.
pub mod format;
pub mod temperature;
pub mod config;
pub mod image;
pub mod backend;
pub mod batch;
