//! The decisions behind `rebuildctl`, the command line front end of a rebuilderd daemon.

pub mod api;
pub mod command;
pub mod error;
pub mod laws;
pub mod paint;
pub mod pattern;
pub mod profile;
pub mod run;
pub mod sync;
pub mod table;
pub mod text;
pub mod time;
