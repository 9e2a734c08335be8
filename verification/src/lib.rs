//! A line-oriented reducer for failing source files.
//!
//! The library keeps an indexed document with a removal mask, drives a
//! greedy span-removal pass over it, asks an externally supplied oracle
//! whether each candidate rendering still reproduces the target property,
//! and classifies the outcome of externally launched commands.

pub mod command;
pub mod document;
pub mod engine;
pub mod oracle;
pub mod tmp;
