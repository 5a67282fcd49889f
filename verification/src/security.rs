//! The master secret and the cipher applied to records.

pub mod encryption;
pub mod master_password;
pub mod session;
