//! Keeps files that version control deliberately excludes in step across
//! machines: classification of each file's sync state, the pull and push
//! policies built on it, and the supporting path and pattern rules.

pub mod add;
pub mod config;
pub mod conflict;
pub mod copy;
pub mod error;
pub mod exclude;
pub mod git;
pub mod path;
pub mod paths;
pub mod project;
pub mod pull;
pub mod push;
pub mod status;
pub mod sync;
pub mod text;
pub mod time;
pub mod tracker;
