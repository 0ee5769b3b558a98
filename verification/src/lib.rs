//! Release resolution, asset selection, download bookkeeping and update
//! tracking for repositories that publish tagged releases.
//!
//! Nothing in this library reads or writes: the feed, the files, the clock
//! and the person at the terminal are the caller's. The library decides
//! what is asked of them and what their answers mean.

pub mod download;
pub mod github;
pub mod github_release;
pub mod matcher;
pub mod paths;
pub mod pattern;
pub mod search;
pub mod text;
pub mod watch;

pub use github_release::{Error, GithubRelease};
