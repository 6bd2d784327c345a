//! A media-retrieval proxy core: access keys are resolved to origin records,
//! artifacts are cached under content-addressed names, and thumbnails are
//! derived by an external transcoder. Everything that decides lives here;
//! the serving process performs the I/O that the decisions ask for.

pub mod text;
pub mod error;
pub mod resolve;
pub mod content_type;
pub mod profile;
pub mod cache;
pub mod inflight;
pub mod coordinator;
pub mod config;
