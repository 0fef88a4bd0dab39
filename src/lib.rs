//! Tracking of experiments: spans of iterative work recorded as a sequence of
//! revision-linked observations in a local SQLite store.

pub mod util;
pub mod store;
pub mod models;
pub mod migrations;
pub mod recorder;
pub mod lifecycle;
pub mod formatter;
pub mod commands;
