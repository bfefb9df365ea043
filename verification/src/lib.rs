//! Locates the files that belong to a macOS application bundle — the bundle
//! itself plus the preference, cache and support files scattered across the
//! known library folders — and drives an interactive checklist that deletes
//! the ones the user picks.
//!
//! The run is one linear pipeline: derive the application's identifiers,
//! assemble the search locations, glob-match every location against every
//! identifier, then select, confirm and remove. Everything that decides is
//! here with a contract; the terminal, the metadata query and the filesystem
//! removals live with the caller.

pub mod application;
pub mod locations;
pub mod matcher;
pub mod paths;
pub mod session;
