//! Project data store for storyboard projects.
//!
//! A project keeps its shot list, its reusable assets (characters, scenes,
//! props), a conversation log and a small key/value table of metadata in a
//! database file below the project's folder.  This crate holds the rules of
//! that store and proves them:
//!
//! - [`schema`]: the tables as they are found on disk and the migrator that
//!   brings them to the current shape, all or nothing and idempotent;
//! - [`db`]: the opened store, its invariant and its tables;
//! - [`commands`]: the operations of the front end: replacing the shot list
//!   in full or in part, upserting assets, appending to the log and reading
//!   it back;
//! - [`project`] and [`layout`]: creating, listing and renaming projects,
//!   and where their files lie;
//! - [`api`]: what is sent to a generation service and what is read from its
//!   answer.
//!
//! The store works on plain values.  Reading and writing the database file,
//! the clock and the network are left to the caller: every operation that
//! records a time takes the time as an argument.

pub mod api;
pub mod assets;
pub mod commands;
pub mod db;
pub mod error;
pub mod json;
pub mod layout;
pub mod meta;
pub mod models;
pub mod order;
pub mod project;
pub mod schema;
pub mod text;
