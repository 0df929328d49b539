//! Acquiring a handle to an operating-system process, and reporting the outcome.
//!
//! The operating-system calls themselves happen outside this crate; this crate
//! models what they hand back as plain values, classifies failures, and renders
//! the lines that report the outcome.
pub mod access;
pub mod render;
