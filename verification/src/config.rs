//! The adapter's startup configuration, resolved once and immutable
//! thereafter, and the choice of session mode it implies.

use crate::technitium::models::LoginPayload;
use vstd::prelude::*;
use vstd::string::*;

verus! {

/// Everything the adapter is configured with: where to listen, where the
/// backend lives, how to authenticate, and which zone it manages.
#[derive(Debug, Clone)]
pub struct Config {
    pub listen_address: String,
    pub listen_port: String,
    pub technitium_url: String,
    pub technitium_username: String,
    pub technitium_password: Option<String>,
    pub technitium_token: Option<String>,
    pub zone: String,
    pub domain_filters: Option<Vec<String>>,
}

impl Default for Config {
    /// Listens everywhere on the conventional port, with nothing else set.
    fn default() -> (r: Config)
        ensures
            r.listen_address@ == "0.0.0.0"@,
            r.listen_port@ == "3000"@,
            r.technitium_url@ == Seq::<char>::empty(),
            r.technitium_username@ == Seq::<char>::empty(),
            r.technitium_password is None,
            r.technitium_token is None,
            r.zone@ == Seq::<char>::empty(),
            r.domain_filters is None,
    {
        Config {
            listen_address: String::from_str("0.0.0.0"),
            listen_port: String::from_str("3000"),
            technitium_url: String::new(),
            technitium_username: String::new(),
            technitium_password: None,
            technitium_token: None,
            zone: String::new(),
            domain_filters: None,
        }
    }
}

/// How the adapter authenticates: a pre-issued token that never needs
/// renewal, or credentials for a login-and-renew session.
#[derive(Debug, Clone, PartialEq, Eq)]
pub enum SessionMode {
    StaticToken(String),
    PasswordLogin(LoginPayload),
}

impl Config {
    /// The socket address to listen on, as `address:port`.
    pub fn address(&self) -> (r: String)
        ensures
            r@ == self.listen_address@ + ":"@ + self.listen_port@,
    {
        self.listen_address.clone().concat(":").concat(self.listen_port.as_str())
    }

    /// The session mode this configuration selects: a static token wins
    /// over credentials, and `None` means the configuration is unusable.
    pub fn session_mode(&self) -> (r: Option<SessionMode>)
        ensures
            r == (match self.technitium_token {
                Some(t) => Some(SessionMode::StaticToken(t)),
                None => match self.technitium_password {
                    Some(p) => Some(
                        SessionMode::PasswordLogin(
                            LoginPayload { username: self.technitium_username, password: p },
                        ),
                    ),
                    None => None,
                },
            }),
    {
        match &self.technitium_token {
            Some(t) => Some(SessionMode::StaticToken(t.clone())),
            None => match &self.technitium_password {
                Some(p) => Some(
                    SessionMode::PasswordLogin(
                        LoginPayload {
                            username: self.technitium_username.clone(),
                            password: p.clone(),
                        },
                    ),
                ),
                None => None,
            },
        }
    }

    /// The login credentials of this configuration.
    pub fn login_payload(&self) -> (r: LoginPayload)
        ensures
            r.username == self.technitium_username,
            match self.technitium_password {
                Some(p) => r.password == p,
                None => r.password@ == Seq::<char>::empty(),
            },
    {
        let password = match &self.technitium_password {
            Some(p) => p.clone(),
            None => String::new(),
        };
        LoginPayload { username: self.technitium_username.clone(), password }
    }
}

} // verus!
