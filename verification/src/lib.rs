//! Mirrors the pull requests of a repository into one descriptor file each.
//!
//! The library holds what a sync decides: how the `gh` client is asked
//! ([`query`]), how its reports become records ([`normalize`]), how the
//! output files are named ([`slug`], [`output`]) and which files a sync
//! removes and writes ([`output`]). Starting the client, reading its JSON
//! and writing the YAML files is left to the program around it.

pub mod decimal;
pub mod error;
pub mod normalize;
pub mod output;
pub mod query;
pub mod record;
pub mod slug;
pub mod text;
pub mod timestamp;
