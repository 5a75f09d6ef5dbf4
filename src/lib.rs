//! Orchestration core of a video downloader built around an external
//! extraction tool: error diagnosis, the multi-phase download strategy,
//! format selection, restriction detection and network-mode decisions.
pub mod text;
pub mod diagnostics;
pub mod download;
pub mod advice;
pub mod errors;
pub mod format_selector;
pub mod metadata;
pub mod progress;
pub mod network;
pub mod models;
pub mod extractors;
pub mod tools;
pub mod backends;
pub mod info;
pub mod freshness;
