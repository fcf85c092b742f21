//! The adapter's shared state and its error taxonomy: every webhook
//! operation checks readiness first, and every failure renders as a
//! status code with a single message.

use crate::config::Config;
use crate::technitium::client::TechnitiumClient;
use crate::technitium::client::TechnitiumError;
use crate::technitium::client::technitium_error_chars;
use vstd::prelude::*;
use vstd::string::*;

verus! {

/// How a webhook operation fails: the service is not ready yet, a
/// response body could not be serialized, or the backend call failed.
#[derive(Debug, Clone, PartialEq, Eq)]
pub enum AppError {
    NotReady,
    JsonSerializeError(String),
    TechnitiumError(TechnitiumError),
}

/// The display text of a webhook error.
pub open spec fn app_error_chars(e: AppError) -> Seq<char> {
    match e {
        AppError::NotReady => "Service not ready yet. Try again later."@,
        AppError::JsonSerializeError(s) => "Failed to serialize JSON: "@ + s@,
        AppError::TechnitiumError(t) => "Failed to communicate with Technitium server: "@
            + technitium_error_chars(t),
    }
}

/// The HTTP status a webhook error answers with: 503 while not ready,
/// 500 otherwise.
pub open spec fn app_error_status(e: AppError) -> u16 {
    match e {
        AppError::NotReady => 503u16,
        AppError::JsonSerializeError(_) => 500u16,
        AppError::TechnitiumError(_) => 500u16,
    }
}

impl AppError {
    /// Renders this error for the response body's single message field.
    pub fn message(&self) -> (r: String)
        ensures
            r@ == app_error_chars(*self),
    {
        match self {
            AppError::NotReady => String::from_str("Service not ready yet. Try again later."),
            AppError::JsonSerializeError(s) => {
                String::from_str("Failed to serialize JSON: ").concat(s.as_str())
            },
            AppError::TechnitiumError(t) => {
                String::from_str("Failed to communicate with Technitium server: ").concat(
                    t.message().as_str(),
                )
            },
        }
    }

    /// The HTTP status this error answers with.
    pub fn status_code(&self) -> (r: u16)
        ensures
            r == app_error_status(*self),
    {
        match self {
            AppError::NotReady => 503,
            AppError::JsonSerializeError(_) => 500,
            AppError::TechnitiumError(_) => 500,
        }
    }
}

/// The process-wide state every request handler reads: the configuration,
/// the readiness flag, and the current backend session snapshot.
#[derive(Debug, Clone)]
pub struct AppState {
    pub config: Config,
    pub is_ready: bool,
    pub client: TechnitiumClient,
    pub use_static_token: bool,
}

impl AppState {
    /// Fails fast with `NotReady` until zone bootstrap has completed.
    pub fn ensure_ready(&self) -> (r: Result<(), AppError>)
        ensures
            r is Ok <==> self.is_ready,
            !self.is_ready ==> r == Err::<(), AppError>(AppError::NotReady),
    {
        if !self.is_ready {
            return Err(AppError::NotReady);
        }
        Ok(())
    }

    /// Marks the service ready to serve traffic; everything else is kept.
    pub fn set_ready(&mut self)
        ensures
            final(self).is_ready,
            final(self).config == old(self).config,
            final(self).client == old(self).client,
            final(self).use_static_token == old(self).use_static_token,
    {
        self.is_ready = true;
    }

    /// Installs a fresh session snapshot carrying `token` against the
    /// configured backend URL; readiness and configuration are kept.
    pub fn replace_session(&mut self, token: String)
        ensures
            final(self).client.base_url == old(self).config.technitium_url,
            final(self).client.token == token,
            final(self).client.timeout_secs == crate::HTTP_TIMEOUT_SECS,
            final(self).config == old(self).config,
            final(self).is_ready == old(self).is_ready,
            final(self).use_static_token == old(self).use_static_token,
    {
        self.client = TechnitiumClient::new(
            self.config.technitium_url.clone(),
            token,
            crate::HTTP_TIMEOUT_SECS,
        );
    }
}

} // verus!
