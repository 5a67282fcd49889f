//! What a client remembers between runs: the host's address and the token
//! that the host last accepted.

use vstd::prelude::*;
use crate::cloud::types::optional_text_view;

verus! {

/// Name of the directory, below the platform's data directory, that holds
/// the client's and the host's files.
pub const DATA_DIR_NAME: &'static str = "x_cli";

/// Name of the file that holds the client's configuration.
pub const CONFIG_FILE_NAME: &'static str = "config.json";

/// The client's configuration.
#[derive(Debug, Clone)]
pub struct AppConfig {
    /// Address of the host.
    pub base_url: Option<String>,
    /// The token that the host last accepted. Never the raw key.
    pub master_hash: Option<String>,
}

/// The configuration as mathematics.
pub struct AppConfigView {
    pub base_url: Option<Seq<char>>,
    pub master_hash: Option<Seq<char>>,
}

impl View for AppConfig {
    type V = AppConfigView;

    open spec fn view(&self) -> AppConfigView {
        AppConfigView {
            base_url: optional_text_view(self.base_url),
            master_hash: optional_text_view(self.master_hash),
        }
    }
}

impl Default for AppConfig {
    /// A configuration that knows no host and no token.
    fn default() -> (config: AppConfig)
        ensures
            config@ == (AppConfigView { base_url: None, master_hash: None }),
    {
        AppConfig { base_url: None, master_hash: None }
    }
}

} // verus!
