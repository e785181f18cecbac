//! Core logic of a downloader for video-on-demand series served by a
//! Dispatcharr instance: command-line options, recipes, episode retrieval,
//! download and validation decisions, and log sinks.
pub mod text;
pub mod logging;
pub mod recipe;
pub mod cli;
pub mod downloader;
