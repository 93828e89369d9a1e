//! Lints the code snippets embedded in the texts of GitHub issues.
//!
//! The crate holds the decisions of an issue-to-lint pipeline: which requests
//! go to GitHub and with which headers, what the entity-tag cache keeps, which
//! code fragments a markdown text carries, and how a playground reply becomes
//! the text shown to the user. Sending the requests is left to the caller.

pub mod github;
pub mod markdown;
pub mod pipeline;
pub mod playground;
pub mod table;
pub mod text;
