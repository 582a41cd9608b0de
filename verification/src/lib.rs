//! Planning logic for merging video files with an external FFmpeg process.
//!
//! The library decides; the surrounding program performs the filesystem and
//! subprocess work and feeds the results back in as plain values.

pub mod cli;
pub mod processor;
pub mod text;
pub mod workflow;
