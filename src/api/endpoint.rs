//! What every request type declares: method, path, query, body and the
//! credentials it needs.
use vstd::prelude::*;

use super::error::BodyError;
use super::params::{encode_pairs, form_encoded, pairs_view, Pairs};

verus! {

/// The HTTP methods the service uses.
#[derive(Debug, Clone, Copy, PartialEq, Eq)]
pub enum Method {
    Get,
    Post,
    Delete,
}

/// A request body as a content type and bytes.
pub open spec fn body_view(b: Option<(&'static str, Vec<u8>)>) -> Option<(Seq<char>, Seq<u8>)> {
    match b {
        Some(p) => Some((p.0@, p.1@)),
        None => None,
    }
}

/// One operation of the service.
pub trait Endpoint {
    spec fn spec_method(&self) -> Method;

    spec fn spec_path(&self) -> Seq<char>;

    open spec fn spec_query(&self) -> Pairs {
        seq![]
    }

    open spec fn spec_body(&self) -> Option<(Seq<char>, Seq<u8>)> {
        None
    }

    open spec fn spec_requires_api_key(&self) -> bool {
        false
    }

    open spec fn spec_requires_oauth_token(&self) -> bool {
        false
    }

    /// The HTTP method.
    fn method(&self) -> (r: Method)
        ensures
            r == self.spec_method(),
    ;

    /// The path relative to the service's root.
    fn endpoint(&self) -> (r: &'static str)
        ensures
            r@ == self.spec_path(),
    ;

    /// The query parameters, in order.
    fn query_pairs(&self) -> (r: Vec<(String, String)>)
        ensures
            pairs_view(r@) == self.spec_query(),
    ;

    /// The query string.
    fn query_parameters(&self) -> (r: Result<String, BodyError>)
        ensures
            r is Ok,
            r is Ok ==> r->Ok_0@ == form_encoded(self.spec_query()),
    {
        let pairs = self.query_pairs();
        match encode_pairs(&pairs) {
            Ok(s) => Ok(s),
            Err(source) => Err(BodyError::UrlEncoded { source }),
        }
    }

    /// The body and its content type, if the request has one.
    fn body(&self) -> (r: Result<Option<(&'static str, Vec<u8>)>, BodyError>)
        ensures
            r is Ok,
            r is Ok ==> body_view(r->Ok_0) == self.spec_body(),
    ;

    /// Whether the request carries the API key.
    fn requires_api_key(&self) -> (r: bool)
        ensures
            r == self.spec_requires_api_key(),
    ;

    /// Whether the request carries the OAuth token.
    fn requires_oauth_token(&self) -> (r: bool)
        ensures
            r == self.spec_requires_oauth_token(),
    ;
}

} // verus!
