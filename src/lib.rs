//! A small library that keeps a list of commit co-authors and renders the
//! `Co-authored-by:` trailer lines for those currently marked active.
//!
//! - `author`: one co-author record and its trailer line.
//! - `author_collection`: the ordered list of records and the operations on it.
//! - `config`: where the list is kept.
//! - `cli`: the command words and the reading of the positions a user types.
//! - `text`: joining and number formatting shared by the others.

pub mod author;
pub mod author_collection;
pub mod cli;
pub mod config;
pub mod text;
