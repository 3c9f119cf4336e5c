//! Searching games by title.
use vstd::prelude::*;

use super::endpoint::{Endpoint, Method};
use super::params::{
    opt_flag_text, opt_param, opt_usize_text, opt_view, pairs_view, push_opt_usize, push_param,
    serialize_option_bool_as_int, Pairs,
};
use super::error::{BodyError, BuilderError};
use crate::auth::copy_opt;

verus! {

/// The fields of [`FindGames`] and of
/// [`FindGamesBuilder`]; a field that was not set is `None` or empty.
pub struct FindGamesModel {
    pub q: Option<Seq<char>>,
    pub limit: Option<usize>,
    pub strict: Option<bool>,
}

impl FindGamesModel {
    /// The query parameters, in field order.
    pub open spec fn query(self) -> Pairs {
        opt_param("q"@, self.q)
            + opt_param("limit"@, opt_usize_text(self.limit))
            + opt_param("strict"@, opt_flag_text(self.strict))
    }

    /// Every field that the endpoint needs is set.
    pub open spec fn complete(self) -> bool {
        self.q is Some
    }
}

/// Searches games whose title matches a text.
#[derive(Debug)]
pub struct FindGames {
    q: String,
    limit: Option<usize>,
    strict: Option<bool>,
}

impl View for FindGames {
    type V = FindGamesModel;

    closed spec fn view(&self) -> FindGamesModel {
        FindGamesModel {
            q: Some(self.q@),
            limit: self.limit,
            strict: self.strict,
        }
    }
}

impl Clone for FindGames {
    fn clone(&self) -> (r: Self)
        ensures
            r@ == self@,
    {
        FindGames {
            q: self.q.clone(),
            limit: self.limit,
            strict: self.strict,
        }
    }
}

/// Collects the fields of [`FindGames`] and checks them.
#[derive(Debug)]
pub struct FindGamesBuilder {
    q: Option<String>,
    limit: Option<usize>,
    strict: Option<bool>,
}

impl View for FindGamesBuilder {
    type V = FindGamesModel;

    closed spec fn view(&self) -> FindGamesModel {
        FindGamesModel {
            q: opt_view(self.q),
            limit: self.limit,
            strict: self.strict,
        }
    }
}

impl Clone for FindGamesBuilder {
    fn clone(&self) -> (r: Self)
        ensures
            r@ == self@,
    {
        FindGamesBuilder {
            q: copy_opt(&self.q),
            limit: self.limit,
            strict: self.strict,
        }
    }
}

impl FindGames {
    /// A builder with no field set.
    pub fn builder() -> (r: FindGamesBuilder)
        ensures
            r@ == (FindGamesModel { q: None, limit: None, strict: None }),
    {
        FindGamesBuilder {
            q: None,
            limit: None,
            strict: None,
        }
    }
}

impl FindGamesBuilder {
    /// Sets `q`.
    pub fn q(&mut self, value: &str) -> (r: &mut Self)
        ensures
            r@ == (FindGamesModel { q: Some(value@), ..old(self)@ }),
            *final(self) == *final(r),
    {
        self.q = Some(value.to_string());
        self
    }

    /// Sets `limit`.
    pub fn limit(&mut self, value: usize) -> (r: &mut Self)
        ensures
            r@ == (FindGamesModel { limit: Some(value), ..old(self)@ }),
            *final(self) == *final(r),
    {
        self.limit = Some(value);
        self
    }

    /// Sets `strict`.
    pub fn strict(&mut self, value: bool) -> (r: &mut Self)
        ensures
            r@ == (FindGamesModel { strict: Some(value), ..old(self)@ }),
            *final(self) == *final(r),
    {
        self.strict = Some(value);
        self
    }

    /// The endpoint, when every needed field is set and the fields go together.
    pub fn build(&self) -> (r: Result<FindGames, BuilderError>)
        ensures
            r is Ok <==> self@.complete(),
            r is Ok ==> r->Ok_0@ == self@,
            self@.q is None ==> r is Err && r->Err_0 is UninitializedField
                && r->Err_0->UninitializedField_0@ == "q"@,
    {
        let q = match &self.q {
            Some(v) => v.clone(),
            None => {
                return Err(BuilderError::UninitializedField("q"));
            },
        };
        Ok(FindGames {
            q,
            limit: self.limit,
            strict: self.strict,
        })
    }
}

impl Endpoint for FindGames {
    open spec fn spec_method(&self) -> Method {
        Method::Get
    }

    open spec fn spec_path(&self) -> Seq<char> {
        "v02/search/search/"@
    }

    open spec fn spec_query(&self) -> Pairs {
        self@.query()
    }

    open spec fn spec_requires_api_key(&self) -> bool {
        true
    }

    fn method(&self) -> (r: Method) {
        Method::Get
    }

    fn endpoint(&self) -> (r: &'static str) {
        "v02/search/search/"
    }

    fn query_pairs(&self) -> (r: Vec<(String, String)>) {
        let mut pairs: Vec<(String, String)> = Vec::new();
        push_param(&mut pairs, "q", self.q.as_str());
        push_opt_usize(&mut pairs, "limit", self.limit);
        serialize_option_bool_as_int(&mut pairs, "strict", self.strict);
        assert(pairs_view(pairs@) =~= self@.query());
        pairs
    }

    fn body(&self) -> (r: Result<Option<(&'static str, Vec<u8>)>, BodyError>) {
        Ok(None)
    }

    fn requires_api_key(&self) -> (r: bool) {
        true
    }

    fn requires_oauth_token(&self) -> (r: bool) {
        false
    }
}

} // verus!
