//! Establishing the session that every vault command runs in.
//!
//! A session is only ever built from a token that the host has just
//! accepted. A cached token that the host rejects is stale: it is purged,
//! and the password is asked for again.

use vstd::prelude::*;
use vstd::string::StringExecFns;
use crate::cloud::client::{
    client_error_text, session_of_password, session_of_token, CloudClientError,
    CloudClientErrorView, Delivery, RemoteSession, SessionView,
};
use crate::config::{AppConfig, AppConfigView};
use crate::security::master_password::password_token;

verus! {

/// What to do first to get a session.
pub enum SessionPlan {
    /// No host is configured: there is nothing to try.
    NoEndpoint,
    /// Send the verify request with the cached token.
    VerifyCached { base_url: String, auth_hash: String },
    /// Ask for the password, and send the verify request with its token.
    AskPassword { base_url: String },
}

/// A plan as mathematics.
pub enum SessionPlanView {
    NoEndpoint,
    VerifyCached { base_url: Seq<char>, auth_hash: Seq<char> },
    AskPassword { base_url: Seq<char> },
}

impl View for SessionPlan {
    type V = SessionPlanView;

    open spec fn view(&self) -> SessionPlanView {
        match self {
            SessionPlan::NoEndpoint => SessionPlanView::NoEndpoint,
            SessionPlan::VerifyCached { base_url, auth_hash } => SessionPlanView::VerifyCached {
                base_url: base_url@,
                auth_hash: auth_hash@,
            },
            SessionPlan::AskPassword { base_url } => SessionPlanView::AskPassword {
                base_url: base_url@,
            },
        }
    }
}

/// The plan that a configuration calls for.
pub open spec fn plan_of(config: AppConfigView) -> SessionPlanView {
    match config.base_url {
        None => SessionPlanView::NoEndpoint,
        Some(base_url) => match config.master_hash {
            Some(auth_hash) => SessionPlanView::VerifyCached { base_url, auth_hash },
            None => SessionPlanView::AskPassword { base_url },
        },
    }
}

/// What to do first to get a session.
pub fn session_plan(app_config: &AppConfig) -> (plan: SessionPlan)
    ensures
        plan@ == plan_of(app_config@),
{
    match &app_config.base_url {
        None => SessionPlan::NoEndpoint,
        Some(base_url) => match &app_config.master_hash {
            Some(auth_hash) => SessionPlan::VerifyCached {
                base_url: base_url.clone(),
                auth_hash: auth_hash.clone(),
            },
            None => SessionPlan::AskPassword { base_url: base_url.clone() },
        },
    }
}

/// What came of trying the cached token.
pub enum Resumed {
    /// The host accepted the token.
    Ready(RemoteSession),
    /// There is no usable cached token: ask for the password. The text,
    /// where there is one, tells the user why.
    PasswordNeeded(Option<String>),
    /// Nothing more can be tried; the text says why.
    Failed(String),
}

/// What is said where no host is configured.
pub open spec fn no_endpoint_text() -> Seq<char> {
    "No cloud endpoint configured. Run `x cloud <url>` to connect to a host."@
}

/// What is said where the host rejected the cached token.
pub open spec fn stale_token_text() -> Seq<char> {
    "Stored master password hash no longer matches the host. Please re-enter the password."@
}

/// Tries the cached token. `verification` is what came of sending the
/// verify request with it; it is not looked at where no host or no token
/// is configured.
///
/// A token that the host rejected is purged from the configuration. Any
/// other failure leaves the configuration as it was.
pub fn resume_session<T>(app_config: &mut AppConfig, verification: &Delivery<T>) -> (r: Resumed)
    ensures
        match plan_of(old(app_config)@) {
            SessionPlanView::NoEndpoint => {
                &&& r matches Resumed::Failed(message)
                &&& message@ == no_endpoint_text()
                &&& final(app_config)@ == old(app_config)@
            },
            SessionPlanView::AskPassword { .. } => {
                &&& r matches Resumed::PasswordNeeded(None)
                &&& final(app_config)@ == old(app_config)@
            },
            SessionPlanView::VerifyCached { base_url, auth_hash } => match session_of_token(
                base_url,
                auth_hash,
                *verification,
            ) {
                Ok(view) => {
                    &&& r matches Resumed::Ready(session)
                    &&& session@ == view
                    &&& session.wf()
                    &&& final(app_config)@ == old(app_config)@
                },
                Err(CloudClientErrorView::AuthenticationFailed) => {
                    &&& r matches Resumed::PasswordNeeded(Some(notice))
                    &&& notice@ == stale_token_text()
                    &&& final(app_config)@ == (AppConfigView {
                        base_url: Some(base_url),
                        master_hash: None,
                    })
                },
                Err(e) => {
                    &&& r matches Resumed::Failed(message)
                    &&& message@ == client_error_text(e)
                    &&& final(app_config)@ == old(app_config)@
                },
            },
        },
{
    let base_url = match &app_config.base_url {
        Some(base_url) => base_url.clone(),
        None => {
            return Resumed::Failed(
                String::from_str(
                    "No cloud endpoint configured. Run `x cloud <url>` to connect to a host.",
                ),
            );
        },
    };
    let hash = match &app_config.master_hash {
        Some(hash) => hash.clone(),
        None => {
            return Resumed::PasswordNeeded(None);
        },
    };
    match RemoteSession::from_hash(base_url, hash, verification) {
        Ok(session) => Resumed::Ready(session),
        Err(CloudClientError::AuthenticationFailed) => {
            app_config.master_hash = None;
            Resumed::PasswordNeeded(
                Some(
                    String::from_str(
                        "Stored master password hash no longer matches the host. Please re-enter the password.",
                    ),
                ),
            )
        },
        Err(err) => Resumed::Failed(err.message()),
    }
}

/// Establishes the session from the password that the user entered.
/// `verification` is what came of sending the verify request with the
/// password's token.
///
/// On success the token is cached in the configuration, never the key.
/// On failure the configuration stays as it was.
pub fn build_session<T>(
    app_config: &mut AppConfig,
    password: String,
    verification: &Delivery<T>,
) -> (r: Result<RemoteSession, String>)
    ensures
        match old(app_config)@.base_url {
            None => {
                &&& r matches Err(message)
                &&& message@ == no_endpoint_text()
                &&& final(app_config)@ == old(app_config)@
            },
            Some(base_url) => match session_of_password(base_url, password@, *verification) {
                Ok(view) => {
                    &&& r matches Ok(session)
                    &&& session@ == view
                    &&& session.wf()
                    &&& final(app_config)@ == (AppConfigView {
                        base_url: Some(base_url),
                        master_hash: Some(password_token(password@)),
                    })
                },
                Err(e) => {
                    &&& r matches Err(message)
                    &&& message@ == client_error_text(e)
                    &&& final(app_config)@ == old(app_config)@
                },
            },
        },
{
    let base_url = match &app_config.base_url {
        Some(base_url) => base_url.clone(),
        None => {
            return Err(
                String::from_str(
                    "No cloud endpoint configured. Run `x cloud <url>` to connect to a host.",
                ),
            );
        },
    };
    match RemoteSession::new(base_url, password, verification) {
        Ok(session) => {
            app_config.master_hash = Some(String::from_str(session.auth_hash()));
            Ok(session)
        },
        Err(err) => Err(err.message()),
    }
}

} // verus!
