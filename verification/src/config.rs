use vstd::prelude::*;

verus! {

/// What the session protocol reads from the client configuration.
#[derive(Debug, Clone, PartialEq)]
pub struct Config {
    /// Base URL of the REST API, without a trailing slash.
    pub base_url: String,
    /// Bearer token; creating a session fails without one.
    pub access_token: Option<String>,
}

impl Config {
    /// The token as a sequence of characters, where there is one.
    pub open spec fn token_view(&self) -> Option<Seq<char>> {
        match self.access_token {
            Some(token) => Some(token@),
            None => None,
        }
    }

    /// A configuration for the API below `base_url`.
    pub fn new(base_url: String, access_token: Option<String>) -> (config: Config)
        ensures
            config.base_url == base_url,
            config.access_token == access_token,
    {
        Config { base_url, access_token }
    }
}

} // verus!
