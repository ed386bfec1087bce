//! Composition of Conventional Commits messages.
//!
//! The library decides and computes; it reads no repository, shows no
//! prompt and starts no process. Its caller reads the repository's status
//! and configured scopes, starts a [`wizard::Wizard`] with them, shows each
//! prompt that the wizard asks for, and runs the command that the wizard
//! hands out in the end.

pub mod commit;
pub mod commit_type;
pub mod dispatch;
pub mod generate;
pub mod scope;
pub mod staging;
pub mod wizard;
