//! Where the API URL and the token come from: command line and environment
//! first, then the configuration file, then the built-in default.
use vstd::prelude::*;

verus! {

/// The API address used when neither the command line nor the file names one.
pub const DEFAULT_API_URL: &'static str = "https://api.cnb.cool";

/// What the configuration file `$XDG_CONFIG_HOME/cnb/auth.json` holds.
#[derive(Debug)]
pub struct AuthConfig {
    pub token: Option<String>,
    pub api_url: Option<String>,
}

/// The settings a client is built from.
#[derive(Debug)]
pub struct ResolvedConfig {
    pub token: Option<String>,
    pub api_url: String,
}

/// The characters of an optional string.
pub open spec fn opt_view(o: Option<String>) -> Option<Seq<char>> {
    match o {
        Some(s) => Some(s@),
        None => None,
    }
}

/// The characters of an optional string slice.
pub open spec fn opt_str_view(o: Option<&str>) -> Option<Seq<char>> {
    match o {
        Some(s) => Some(s@),
        None => None,
    }
}

/// The first of two optional values that is present.
pub open spec fn first_some(a: Option<Seq<char>>, b: Option<Seq<char>>) -> Option<Seq<char>> {
    match a {
        Some(x) => Some(x),
        None => b,
    }
}

impl Default for AuthConfig {
    fn default() -> (r: AuthConfig)
        ensures
            r.token is None,
            r.api_url is None,
    {
        AuthConfig { token: None, api_url: None }
    }
}

impl AuthConfig {
    /// Combines command-line values with the file's: a value given on the
    /// command line wins, then the file's, and the API URL falls back to
    /// `DEFAULT_API_URL`.
    pub fn resolve(cli_api_url: Option<&str>, cli_token: Option<&str>, file: AuthConfig) -> (r:
        ResolvedConfig)
        ensures
            r.api_url@ == match first_some(opt_str_view(cli_api_url), opt_view(file.api_url)) {
                Some(u) => u,
                None => DEFAULT_API_URL@,
            },
            opt_view(r.token) == first_some(opt_str_view(cli_token), opt_view(file.token)),
    {
        let api_url = match cli_api_url {
            Some(u) => String::from_str(u),
            None => match file.api_url {
                Some(u) => u,
                None => String::from_str(DEFAULT_API_URL),
            },
        };
        let token = match cli_token {
            Some(t) => Some(String::from_str(t)),
            None => file.token,
        };
        ResolvedConfig { token, api_url }
    }
}

} // verus!
