//! Maps file extensions and aliases to command templates, and plans the
//! launch of the program that a template names.
//!
//! The configuration is two mappings, [`config::Config`]. A file is run by
//! the command of its extension, an alias by its own command; both are cut
//! into a program and its arguments by [`template::tokenize`] and planned by
//! the functions of [`launch`]. [`dispatch::dispatch`] routes one invocation
//! to the one action it asks for. Reading and writing the configuration file,
//! printing, and spawning child processes are left to the caller.

pub mod config;
pub mod dispatch;
pub mod editor;
pub mod error;
pub mod launch;
pub mod laws;
pub mod listing;
pub mod mapping;
pub mod resolve;
pub mod template;
pub mod text;
