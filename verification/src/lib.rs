//! Finding references to NVIDIA NIM containers and hosted endpoints in
//! source trees, and looking up what the remote catalogue knows of them.
//!
//! The library reads no file and sends no request. It is handed the text of
//! a file and says which references it holds ([`scanner`]); it sorts,
//! deduplicates, groups and counts what was found ([`scanner`],
//! [`aggregate`], [`summary`], [`report`]); and it decides, for every reply
//! of the remote catalogue, what was learned and what to ask next
//! ([`ngc_api`], [`catalog`], [`retry`]). Matching is done by the `regex`
//! crate ([`patterns`]) and parsing of replies by `serde_json` ([`json`]).
//!
//! Every function states what it returns over the views of its arguments,
//! and is proved to do so; what is believed of other crates and of the
//! standard library is marked `external_body` and says so in its comment.

pub mod text;
pub mod seqs;
pub mod models;
pub mod config;
pub mod git_ops;
pub mod aggregate;
pub mod summary;
pub mod patterns;
pub mod scanner;
pub mod json;
pub mod retry;
pub mod catalog;
pub mod ngc_api;
pub mod report;
