//! The decisions of a queue-driven OCR worker: how a configuration file
//! becomes settings, which job a routing key selects, which image addresses
//! a job accepts, how a job advances from one piece of outside work to the
//! next, and what is owed to the broker once a job has ended.
//!
//! Nothing here reads a file, opens a socket or starts a process. The caller
//! does that work and reports each outcome; the functions of this crate say
//! what follows from it.

pub mod config;
pub mod delivery;
pub mod file_url;
pub mod jobs;
pub mod operations;
pub mod text;
