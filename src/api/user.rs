//! The signed-in user.
use vstd::prelude::*;

use super::endpoint::{Endpoint, Method};
use super::params::pairs_view;
use super::error::BodyError;

verus! {

/// Information on the signed-in user.
#[derive(Debug, Clone, Copy, PartialEq, Eq)]
pub struct UserInfo {}

impl UserInfo {
    pub fn new() -> (r: Self)
        ensures
            r == (UserInfo {}),
    {
        UserInfo {}
    }
}

impl Endpoint for UserInfo {
    open spec fn spec_method(&self) -> Method {
        Method::Get
    }

    open spec fn spec_path(&self) -> Seq<char> {
        "v01/user/info"@
    }

    open spec fn spec_requires_oauth_token(&self) -> bool {
        true
    }

    fn method(&self) -> (r: Method) {
        Method::Get
    }

    fn endpoint(&self) -> (r: &'static str) {
        "v01/user/info"
    }

    fn query_pairs(&self) -> (r: Vec<(String, String)>) {
        let mut pairs: Vec<(String, String)> = Vec::new();
        assert(pairs_view(pairs@) =~= seq![]);
        pairs
    }

    fn body(&self) -> (r: Result<Option<(&'static str, Vec<u8>)>, BodyError>) {
        Ok(None)
    }

    fn requires_api_key(&self) -> (r: bool) {
        false
    }

    fn requires_oauth_token(&self) -> (r: bool) {
        true
    }
}

} // verus!
