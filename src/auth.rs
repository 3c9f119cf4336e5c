//! The credentials a client attaches to requests.
use vstd::prelude::*;

use crate::api::params::{pairs_view, push_param};

verus! {

/// A credential that an endpoint needs is not configured.
#[derive(Debug, Clone, Copy, PartialEq, Eq)]
#[non_exhaustive]
pub enum AuthError {
    MissingApiKey,
    MissingOauthToken,
}

/// An optional API key and an optional OAuth token.
pub struct Auth {
    pub api_key: Option<String>,
    pub oauth_token: Option<String>,
}

impl Clone for Auth {
    fn clone(&self) -> (r: Self)
        ensures
            r == *self,
    {
        Auth { api_key: copy_opt(&self.api_key), oauth_token: copy_opt(&self.oauth_token) }
    }
}

/// A copy of an optional string.
pub fn copy_opt(v: &Option<String>) -> (r: Option<String>)
    ensures
        r == *v,
{
    match v {
        Some(s) => Some(s.clone()),
        None => None,
    }
}

impl Auth {
    /// Appends `key=<api key>`, or fails when no key is configured.
    pub fn append_api_key_query_param(&self, query_params: &mut Vec<(String, String)>) -> (r:
        Result<(), AuthError>)
        ensures
            self.api_key is None ==> r == Err::<(), AuthError>(AuthError::MissingApiKey)
                && final(query_params)@ == old(query_params)@,
            self.api_key matches Some(k) ==> r is Ok && pairs_view(final(query_params)@)
                == pairs_view(old(query_params)@) + seq![("key"@, k@)],
    {
        match &self.api_key {
            Some(key) => {
                push_param(query_params, "key", key.as_str());
                Ok(())
            },
            None => Err(AuthError::MissingApiKey),
        }
    }

    /// Appends `access_token=<oauth token>`, or fails when no token is configured.
    pub fn append_oauth_token_query_param(
        &self,
        query_params: &mut Vec<(String, String)>,
    ) -> (r: Result<(), AuthError>)
        ensures
            self.oauth_token is None ==> r == Err::<(), AuthError>(AuthError::MissingOauthToken)
                && final(query_params)@ == old(query_params)@,
            self.oauth_token matches Some(t) ==> r is Ok && pairs_view(final(query_params)@)
                == pairs_view(old(query_params)@) + seq![("access_token"@, t@)],
    {
        match &self.oauth_token {
            Some(token) => {
                push_param(query_params, "access_token", token.as_str());
                Ok(())
            },
            None => Err(AuthError::MissingOauthToken),
        }
    }
}

} // verus!
