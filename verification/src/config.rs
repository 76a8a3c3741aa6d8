use vstd::prelude::*;

verus! {

/// The port the server listens on where none is configured.
pub const DEFAULT_PORT: u16 = 3001;

/// What the service is configured with at start.
#[derive(Debug)]
pub struct Config {
    pub port: u16,
    pub postgres_url: String,
    pub redis_url: String,
    pub jwt_secret: String,
    pub base_url: String,
    pub smtp_host: String,
    pub smtp_username: String,
    pub smtp_password: String,
    pub smtp_sender_email: String,
    pub smtp_sender_name: String,
}

impl Config {
    /// The port to listen on: the configured one, or the default.
    pub fn port_or_default(configured: Option<u16>) -> (port: u16)
        ensures
            port == match configured {
                Some(port) => port,
                None => DEFAULT_PORT,
            },
    {
        match configured {
            Some(port) => port,
            None => DEFAULT_PORT,
        }
    }
}

} // verus!
