//! What each command decides, once the caller has asked the user and
//! fetched the vault.
//!
//! A command that changes the vault works on the fetched copy; the caller
//! then replaces the host's vault with it as a whole.

pub mod add;
pub mod cloud;
pub mod delete;
pub mod edit;
pub mod export;
pub mod get;
pub mod host;
pub mod import;
pub mod list;
pub mod password_generator;
pub mod update;
