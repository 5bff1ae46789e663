//! Local credential vault for a desktop flashcard application.
//!
//! Small secret strings (API keys, service base URLs) belonging to
//! user-configured AI provider profiles are kept in a protected store — the
//! vault — while public profile metadata lives in an ordinary relational
//! store owned by the embedding application.  The crate provides the vault's
//! capability interface with its backend implementations, the in-memory
//! cache each backend maintains, and the redact/reconstruct protocol that
//! keeps secret scalars out of general-purpose storage.

pub mod ai;
pub mod algorithms;
pub mod cards;
pub mod commands;
pub mod decks;
pub mod error;
pub mod file_store;
pub mod init;
pub mod keyring_store;
pub mod laws;
pub mod lessons;
pub mod profiles;
pub mod replace_plan;
pub mod reviews;
pub mod secret_map;
pub mod secret_store;
pub mod settings;
pub mod settings_ai;
pub mod settings_hotkeys;
pub mod settings_interface;
pub mod settings_learning;
pub mod templates;
pub mod text;
pub mod utility;
pub mod windows_store;
