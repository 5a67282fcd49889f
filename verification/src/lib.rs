//! Client and host logic of a single-tenant secret store.
//!
//! One password yields one 32-byte master secret. Its hexadecimal form
//! authenticates a client to the host; its raw bytes encrypt every record
//! that the host stores. Whoever can authenticate can therefore decrypt:
//! the transport has to be protected by the deployment.
//!
//! Nothing in this library reads a file, opens a socket or asks the user.
//! A request is a value for the caller to send, and what came of sending
//! it is a value that the caller hands back; the host's store is a value
//! that the caller persists.
//!
//! - [`security`]: the master secret, the cipher, the session clock.
//! - [`json`]: the flat JSON objects that records and envelopes are
//!   written as.
//! - [`vault`]: records, envelopes, and what a stored value opens to.
//! - [`entries`]: changes to a fetched vault, and the laws they obey.
//! - [`cloud`]: the client's requests, the host's store and its routes.
//! - [`startup`]: how a session comes about.
//! - [`commands`]: what each command decides.
//! - [`config`]: what a client remembers between runs.
//! - [`text`]: comparisons and formatting of text.
//!
//! Contracts speak of the cipher, the digest, base64, JSON and URLs
//! through functions without a body: each names what one call into
//! another crate returns. The calls themselves stand in functions marked
//! `external_body`, whose contracts are believed, not proved.

pub mod cloud;
pub mod commands;
pub mod config;
pub mod entries;
pub mod json;
pub mod security;
pub mod startup;
pub mod text;
pub mod vault;
