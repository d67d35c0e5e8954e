//! The configuration document that the front end fetches.

use crate::endpoint::EndpointChoice;
use vstd::prelude::*;
use vstd::string::*;

verus! {

/// What the front end needs to reach the API backend. It is made once at
/// startup and handed out unchanged on every request.
#[derive(Clone, Debug, PartialEq, Eq)]
pub struct AppConfig {
    /// The base URL of the API backend.
    pub server_url: String,
    /// The key to present to the backend; empty where none was supplied.
    pub api_key: String,
}

/// The key that goes into the configuration.
pub open spec fn key_or_empty(api_key: Option<String>) -> Seq<char> {
    match api_key {
        Some(key) => key@,
        None => Seq::empty(),
    }
}

/// Makes the configuration from the endpoint chosen and the key supplied.
pub fn build_config(choice: &EndpointChoice, api_key: Option<String>) -> (config: AppConfig)
    ensures
        config.server_url@ == choice.url(),
        config.api_key@ == key_or_empty(api_key),
{
    let api_key = match api_key {
        Some(key) => key,
        None => String::new(),
    };
    AppConfig { server_url: choice.base_url(), api_key }
}

} // verus!
