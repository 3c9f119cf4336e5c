//! Configuration of a client: host and credentials.
use vstd::prelude::*;

use crate::api::params::opt_view;
use crate::api::query::{parse_url, parsed_url};
use crate::auth::{copy_opt, Auth};

verus! {

/// The host of the service when none is configured.
pub const DEFAULT_ITAD_API_HOST: &'static str = "api.isthereanydeal.com";

/// The settings a client builder collects.
pub struct ItadApiSettings {
    pub host: Option<Seq<char>>,
    pub api_key: Option<Seq<char>>,
    pub oauth_token: Option<Seq<char>>,
}

/// The base URL of the service on `host`, or on the default host.
pub open spec fn rest_url_of(host: Option<Seq<char>>) -> Seq<char> {
    "https://"@ + match host {
        Some(h) => h,
        None => "api.isthereanydeal.com"@,
    } + "/"@
}

/// Collects the host and credentials of a client.
#[derive(Debug)]
pub struct ItadApiBuilder {
    host: Option<String>,
    api_key: Option<String>,
    oauth_token: Option<String>,
}

impl View for ItadApiBuilder {
    type V = ItadApiSettings;

    closed spec fn view(&self) -> ItadApiSettings {
        ItadApiSettings {
            host: opt_view(self.host),
            api_key: opt_view(self.api_key),
            oauth_token: opt_view(self.oauth_token),
        }
    }
}

impl Default for ItadApiBuilder {
    fn default() -> (r: Self)
        ensures
            r@ == (ItadApiSettings { host: None, api_key: None, oauth_token: None }),
    {
        ItadApiBuilder { host: None, api_key: None, oauth_token: None }
    }
}

impl ItadApiBuilder {
    /// A builder with nothing set.
    pub fn new() -> (r: Self)
        ensures
            r@ == (ItadApiSettings { host: None, api_key: None, oauth_token: None }),
    {
        ItadApiBuilder { host: None, api_key: None, oauth_token: None }
    }

    /// Sets the host.
    pub fn host(&mut self, value: &str) -> (r: &mut Self)
        ensures
            r@ == (ItadApiSettings { host: Some(value@), ..old(self)@ }),
            *final(self) == *final(r),
    {
        self.host = Some(value.to_string());
        self
    }

    /// Sets the API key.
    pub fn api_key(&mut self, value: &str) -> (r: &mut Self)
        ensures
            r@ == (ItadApiSettings { api_key: Some(value@), ..old(self)@ }),
            *final(self) == *final(r),
    {
        self.api_key = Some(value.to_string());
        self
    }

    /// Sets the OAuth token.
    pub fn oauth_token(&mut self, value: &str) -> (r: &mut Self)
        ensures
            r@ == (ItadApiSettings { oauth_token: Some(value@), ..old(self)@ }),
            *final(self) == *final(r),
    {
        self.oauth_token = Some(value.to_string());
        self
    }

    /// `https://<host>/`, with the default host when none is set.
    pub fn rest_url(&self) -> (r: String)
        ensures
            r@ == rest_url_of(self@.host),
    {
        let mut url = "https://".to_string();
        match &self.host {
            Some(h) => url.append(h.as_str()),
            None => url.append(DEFAULT_ITAD_API_HOST),
        }
        url.append("/");
        url
    }

    /// The base URL, parsed.
    pub fn parse_rest_url(&self) -> (r: Result<url::Url, url::ParseError>)
        ensures
            r == parsed_url(rest_url_of(self@.host)),
    {
        let text = self.rest_url();
        parse_url(text.as_str())
    }

    /// The credentials that were set.
    pub fn auth(&self) -> (r: Auth)
        ensures
            opt_view(r.api_key) == self@.api_key,
            opt_view(r.oauth_token) == self@.oauth_token,
    {
        Auth { api_key: copy_opt(&self.api_key), oauth_token: copy_opt(&self.oauth_token) }
    }
}

} // verus!
