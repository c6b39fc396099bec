//! Attack-farm core: flag extraction, deduplication, per-target scheduling
//! and reliable submission to an acceptance service.

pub mod config;
pub mod dedup;
pub mod matcher;
pub mod stats;
pub mod submit;
pub mod ui;
pub mod worker;
