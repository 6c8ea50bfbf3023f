//! What the program is configured with before any task starts.

use crate::error::CommitauraError;
use vstd::prelude::*;

verus! {

/// The name of the environment variable that holds the credential of the model
/// provider.
pub open spec fn api_key_variable_text() -> Seq<char> {
    "OPENAI_API_KEY"@
}

/// Where the model provider is reached.
pub open spec fn api_url_text() -> Seq<char> {
    "https://api.openai.com/v1/"@
}

/// The name of the environment variable that holds the credential of the model
/// provider.
pub fn api_key_variable() -> (name: String)
    ensures
        name@ == api_key_variable_text(),
{
    "OPENAI_API_KEY".to_owned()
}

/// The configuration of one run: it is read once, at startup, and handed to
/// whoever talks to the model provider.
#[derive(Debug)]
pub struct Config {
    /// The credential of the model provider.
    pub api_key: String,
    /// Where the model provider is reached.
    pub api_url: String,
}

impl Config {
    /// The configuration for a credential as the environment gave it. Without
    /// a credential nothing can run, and none is made up: its absence is the
    /// failure `EnvVarNotSet`, with the name of the variable.
    pub fn from_environment(api_key: Option<String>) -> (r: Result<Config, CommitauraError>)
        ensures
            match api_key {
                Some(key) => r matches Ok(c) && c.api_key == key && c.api_url@ == api_url_text(),
                None => r matches Err(CommitauraError::EnvVarNotSet(name)) && name@
                    == api_key_variable_text(),
            },
    {
        match api_key {
            Some(key) => Ok(Config { api_key: key, api_url: "https://api.openai.com/v1/".to_owned() }),
            None => Err(CommitauraError::EnvVarNotSet(api_key_variable())),
        }
    }
}

} // verus!
