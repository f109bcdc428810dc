//! Request handling for a small HTTP listener that logs every request and,
//! when a serve root is configured, answers with the files found under it.
pub mod handler;
pub mod request;
pub mod response;
pub mod target;
