//! Interactive package-dashboard engine: the filter/sort/search pipeline,
//! the modal sub-state machines, the input-mode router, the action and
//! hotkey dispatcher, the tag store, and the message log.

pub mod app;
pub mod config;
pub mod error;
pub mod filter;
pub mod fuzzy;
pub mod keys;
pub mod log;
pub mod modal;
pub mod pipeline;
pub mod pkg;
pub mod sort;
pub mod tagdb;
pub mod text;
