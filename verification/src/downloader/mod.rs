//! Retrieving the episodes of a series and deciding how they are downloaded.
pub mod download;
pub mod ffmpeg;
pub mod retrieval;
pub mod types;
