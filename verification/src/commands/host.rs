//! Starting the host.

use vstd::prelude::*;
use vstd::string::StringExecFns;
use crate::cloud::server::{ServerConfig, ServerConfigView, ServerError, ServerErrorView};
use crate::cloud::types::optional_text_view;
use crate::security::master_password::{hash_password, password_token};

verus! {

/// The token that the host starts with: the one that its store already
/// holds, or else that of the password which the operator entered.
pub open spec fn host_token(existing_hash: Option<Seq<char>>, password: Seq<char>) -> Seq<char> {
    match existing_hash {
        Some(hash) => hash,
        None => password_token(password),
    }
}

/// The configuration that the host starts with. Where the store already
/// holds a token, that token is reused and `password` is not looked at;
/// otherwise the token is that of `password`.
pub fn host_server(config: ServerConfig, existing_hash: Option<String>, password: &str) -> (r:
    ServerConfig)
    ensures
        r@ == (ServerConfigView {
            bind_address: config@.bind_address,
            port: config@.port,
            data_path: config@.data_path,
            master_hash: Some(host_token(optional_text_view(existing_hash), password@)),
        }),
{
    let mut config = config;
    match existing_hash {
        Some(hash) => {
            config.master_hash = Some(hash);
        },
        None => {
            config.master_hash = Some(hash_password(password));
        },
    }
    config
}

/// What the operator is told where the host did not start: a word on the
/// password where the store rejected the token, nothing more otherwise.
pub open spec fn start_failure_text(err: ServerErrorView) -> Option<Seq<char>> {
    match err {
        ServerErrorView::Unauthorized => Some(
            "Master password rejected. Ensure you entered the correct host password."@,
        ),
        _ => None,
    }
}

/// What the operator is told, beyond the error itself, where the host did
/// not start.
pub fn start_failure_notice(err: &ServerError) -> (notice: Option<String>)
    ensures
        optional_text_view(notice) == start_failure_text(err@),
{
    match err {
        ServerError::Unauthorized => Some(
            String::from_str(
                "Master password rejected. Ensure you entered the correct host password.",
            ),
        ),
        _ => None,
    }
}

} // verus!
