//! Core logic of a daemon that tails the Hive blockchain for podping
//! notifications and persists each one durably to a sink (console, local
//! disk, or S3-compatible object storage).
//!
//! This crate holds the verified block-sync pipeline: resume-point
//! computation, the scanner's cursor arithmetic and block assembly, the
//! podping decoder, sink path construction, watermark bookkeeping, and the
//! status-code and event classification that drives the writers. The
//! unverified shell around it (HTTP, signing, the async runtime) lives
//! outside the library and exchanges plain values with it.

pub mod config;
pub mod console;
pub mod decimal;
pub mod decoder;
pub mod json;
pub mod scanner;
pub mod paths;
pub mod plan;
pub mod podping;
pub mod resume;
pub mod status;
pub mod watermark;
pub mod writer_steps;
