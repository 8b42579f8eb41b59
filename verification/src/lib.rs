//! Generation of continuous-integration configuration from a single
//! declarative source.
//!
//! The library resolves a configuration from a cascade of sources
//! (a dedicated file, its dotfile variant, or a section of the package
//! manifest's metadata), applies per-entry defaulting rules that allow
//! partial overrides, and prepares the text that a backend-specific
//! configuration file is to hold.  Two CI backends are supported,
//! CircleCI and Travis; the CircleCI backend additionally cross-checks
//! the generated configuration against the merge bot's status-check
//! list.  All file reading and writing is left to the caller: the
//! functions here work on plain values and say in their contracts what
//! they return.

pub mod bors;
pub mod ci;
pub mod config;
pub mod entry;
pub mod source;
pub mod text;
