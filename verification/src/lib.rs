//! Extraction and rendering of a social-media conversation thread.
//!
//! The library turns one semi-structured JSON document (a thread-detail API
//! response) into a strict domain model (`TwitterThread`), and renders that
//! model into a fixed markdown document.  Acquiring the raw JSON and writing
//! the rendered text to disk are left to the surrounding program.

pub mod cli;
pub mod digits;
pub mod errors;
pub mod helper;
pub mod json;
pub mod media;
pub mod render;
pub mod response;
pub mod twitter_threads;
