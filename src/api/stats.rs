//! Charts of the most waitlisted, collected and popular games.
use vstd::prelude::*;

use super::endpoint::{Endpoint, Method};
use super::params::{opt_param, opt_usize_text, pairs_view, push_opt_usize, Pairs};
use super::error::{BodyError, BuilderError};

verus! {

/// The fields of [`WaitlistChart`] and of
/// [`WaitlistChartBuilder`]; a field that was not set is `None` or empty.
pub struct WaitlistChartModel {
    pub offset: Option<usize>,
    pub limit: Option<usize>,
}

impl WaitlistChartModel {
    /// The query parameters, in field order.
    pub open spec fn query(self) -> Pairs {
        opt_param("offset"@, opt_usize_text(self.offset))
            + opt_param("limit"@, opt_usize_text(self.limit))
    }

    /// Every field that the endpoint needs is set.
    pub open spec fn complete(self) -> bool {
        true
    }
}

/// The games most often on waitlists.
#[derive(Debug)]
pub struct WaitlistChart {
    offset: Option<usize>,
    limit: Option<usize>,
}

impl View for WaitlistChart {
    type V = WaitlistChartModel;

    closed spec fn view(&self) -> WaitlistChartModel {
        WaitlistChartModel {
            offset: self.offset,
            limit: self.limit,
        }
    }
}

impl Clone for WaitlistChart {
    fn clone(&self) -> (r: Self)
        ensures
            r@ == self@,
    {
        WaitlistChart {
            offset: self.offset,
            limit: self.limit,
        }
    }
}

/// Collects the fields of [`WaitlistChart`] and checks them.
#[derive(Debug)]
pub struct WaitlistChartBuilder {
    offset: Option<usize>,
    limit: Option<usize>,
}

impl View for WaitlistChartBuilder {
    type V = WaitlistChartModel;

    closed spec fn view(&self) -> WaitlistChartModel {
        WaitlistChartModel {
            offset: self.offset,
            limit: self.limit,
        }
    }
}

impl Clone for WaitlistChartBuilder {
    fn clone(&self) -> (r: Self)
        ensures
            r@ == self@,
    {
        WaitlistChartBuilder {
            offset: self.offset,
            limit: self.limit,
        }
    }
}

impl WaitlistChart {
    /// A builder with no field set.
    pub fn builder() -> (r: WaitlistChartBuilder)
        ensures
            r@ == (WaitlistChartModel { offset: None, limit: None }),
    {
        WaitlistChartBuilder {
            offset: None,
            limit: None,
        }
    }
}

impl WaitlistChartBuilder {
    /// Sets `offset`.
    pub fn offset(&mut self, value: usize) -> (r: &mut Self)
        ensures
            r@ == (WaitlistChartModel { offset: Some(value), ..old(self)@ }),
            *final(self) == *final(r),
    {
        self.offset = Some(value);
        self
    }

    /// Sets `limit`.
    pub fn limit(&mut self, value: usize) -> (r: &mut Self)
        ensures
            r@ == (WaitlistChartModel { limit: Some(value), ..old(self)@ }),
            *final(self) == *final(r),
    {
        self.limit = Some(value);
        self
    }

    /// The endpoint, when every needed field is set and the fields go together.
    pub fn build(&self) -> (r: Result<WaitlistChart, BuilderError>)
        ensures
            r is Ok <==> self@.complete(),
            r is Ok ==> r->Ok_0@ == self@,
    {
        Ok(WaitlistChart {
            offset: self.offset,
            limit: self.limit,
        })
    }
}

impl Endpoint for WaitlistChart {
    open spec fn spec_method(&self) -> Method {
        Method::Get
    }

    open spec fn spec_path(&self) -> Seq<char> {
        "v01/stats/waitlist/chart/"@
    }

    open spec fn spec_query(&self) -> Pairs {
        self@.query()
    }

    open spec fn spec_requires_api_key(&self) -> bool {
        true
    }

    fn method(&self) -> (r: Method) {
        Method::Get
    }

    fn endpoint(&self) -> (r: &'static str) {
        "v01/stats/waitlist/chart/"
    }

    fn query_pairs(&self) -> (r: Vec<(String, String)>) {
        let mut pairs: Vec<(String, String)> = Vec::new();
        push_opt_usize(&mut pairs, "offset", self.offset);
        push_opt_usize(&mut pairs, "limit", self.limit);
        assert(pairs_view(pairs@) =~= self@.query());
        pairs
    }

    fn body(&self) -> (r: Result<Option<(&'static str, Vec<u8>)>, BodyError>) {
        Ok(None)
    }

    fn requires_api_key(&self) -> (r: bool) {
        true
    }

    fn requires_oauth_token(&self) -> (r: bool) {
        false
    }
}

/// The fields of [`CollectionChart`] and of
/// [`CollectionChartBuilder`]; a field that was not set is `None` or empty.
pub struct CollectionChartModel {
    pub offset: Option<usize>,
    pub limit: Option<usize>,
}

impl CollectionChartModel {
    /// The query parameters, in field order.
    pub open spec fn query(self) -> Pairs {
        opt_param("offset"@, opt_usize_text(self.offset))
            + opt_param("limit"@, opt_usize_text(self.limit))
    }

    /// Every field that the endpoint needs is set.
    pub open spec fn complete(self) -> bool {
        true
    }
}

/// The games most often in collections.
#[derive(Debug)]
pub struct CollectionChart {
    offset: Option<usize>,
    limit: Option<usize>,
}

impl View for CollectionChart {
    type V = CollectionChartModel;

    closed spec fn view(&self) -> CollectionChartModel {
        CollectionChartModel {
            offset: self.offset,
            limit: self.limit,
        }
    }
}

impl Clone for CollectionChart {
    fn clone(&self) -> (r: Self)
        ensures
            r@ == self@,
    {
        CollectionChart {
            offset: self.offset,
            limit: self.limit,
        }
    }
}

/// Collects the fields of [`CollectionChart`] and checks them.
#[derive(Debug)]
pub struct CollectionChartBuilder {
    offset: Option<usize>,
    limit: Option<usize>,
}

impl View for CollectionChartBuilder {
    type V = CollectionChartModel;

    closed spec fn view(&self) -> CollectionChartModel {
        CollectionChartModel {
            offset: self.offset,
            limit: self.limit,
        }
    }
}

impl Clone for CollectionChartBuilder {
    fn clone(&self) -> (r: Self)
        ensures
            r@ == self@,
    {
        CollectionChartBuilder {
            offset: self.offset,
            limit: self.limit,
        }
    }
}

impl CollectionChart {
    /// A builder with no field set.
    pub fn builder() -> (r: CollectionChartBuilder)
        ensures
            r@ == (CollectionChartModel { offset: None, limit: None }),
    {
        CollectionChartBuilder {
            offset: None,
            limit: None,
        }
    }
}

impl CollectionChartBuilder {
    /// Sets `offset`.
    pub fn offset(&mut self, value: usize) -> (r: &mut Self)
        ensures
            r@ == (CollectionChartModel { offset: Some(value), ..old(self)@ }),
            *final(self) == *final(r),
    {
        self.offset = Some(value);
        self
    }

    /// Sets `limit`.
    pub fn limit(&mut self, value: usize) -> (r: &mut Self)
        ensures
            r@ == (CollectionChartModel { limit: Some(value), ..old(self)@ }),
            *final(self) == *final(r),
    {
        self.limit = Some(value);
        self
    }

    /// The endpoint, when every needed field is set and the fields go together.
    pub fn build(&self) -> (r: Result<CollectionChart, BuilderError>)
        ensures
            r is Ok <==> self@.complete(),
            r is Ok ==> r->Ok_0@ == self@,
    {
        Ok(CollectionChart {
            offset: self.offset,
            limit: self.limit,
        })
    }
}

impl Endpoint for CollectionChart {
    open spec fn spec_method(&self) -> Method {
        Method::Get
    }

    open spec fn spec_path(&self) -> Seq<char> {
        "v01/stats/collection/chart/"@
    }

    open spec fn spec_query(&self) -> Pairs {
        self@.query()
    }

    open spec fn spec_requires_api_key(&self) -> bool {
        true
    }

    fn method(&self) -> (r: Method) {
        Method::Get
    }

    fn endpoint(&self) -> (r: &'static str) {
        "v01/stats/collection/chart/"
    }

    fn query_pairs(&self) -> (r: Vec<(String, String)>) {
        let mut pairs: Vec<(String, String)> = Vec::new();
        push_opt_usize(&mut pairs, "offset", self.offset);
        push_opt_usize(&mut pairs, "limit", self.limit);
        assert(pairs_view(pairs@) =~= self@.query());
        pairs
    }

    fn body(&self) -> (r: Result<Option<(&'static str, Vec<u8>)>, BodyError>) {
        Ok(None)
    }

    fn requires_api_key(&self) -> (r: bool) {
        true
    }

    fn requires_oauth_token(&self) -> (r: bool) {
        false
    }
}

/// The fields of [`PopularityChart`] and of
/// [`PopularityChartBuilder`]; a field that was not set is `None` or empty.
pub struct PopularityChartModel {
    pub offset: Option<usize>,
    pub limit: Option<usize>,
}

impl PopularityChartModel {
    /// The query parameters, in field order.
    pub open spec fn query(self) -> Pairs {
        opt_param("offset"@, opt_usize_text(self.offset))
            + opt_param("limit"@, opt_usize_text(self.limit))
    }

    /// Every field that the endpoint needs is set.
    pub open spec fn complete(self) -> bool {
        true
    }
}

/// The most popular games.
#[derive(Debug)]
pub struct PopularityChart {
    offset: Option<usize>,
    limit: Option<usize>,
}

impl View for PopularityChart {
    type V = PopularityChartModel;

    closed spec fn view(&self) -> PopularityChartModel {
        PopularityChartModel {
            offset: self.offset,
            limit: self.limit,
        }
    }
}

impl Clone for PopularityChart {
    fn clone(&self) -> (r: Self)
        ensures
            r@ == self@,
    {
        PopularityChart {
            offset: self.offset,
            limit: self.limit,
        }
    }
}

/// Collects the fields of [`PopularityChart`] and checks them.
#[derive(Debug)]
pub struct PopularityChartBuilder {
    offset: Option<usize>,
    limit: Option<usize>,
}

impl View for PopularityChartBuilder {
    type V = PopularityChartModel;

    closed spec fn view(&self) -> PopularityChartModel {
        PopularityChartModel {
            offset: self.offset,
            limit: self.limit,
        }
    }
}

impl Clone for PopularityChartBuilder {
    fn clone(&self) -> (r: Self)
        ensures
            r@ == self@,
    {
        PopularityChartBuilder {
            offset: self.offset,
            limit: self.limit,
        }
    }
}

impl PopularityChart {
    /// A builder with no field set.
    pub fn builder() -> (r: PopularityChartBuilder)
        ensures
            r@ == (PopularityChartModel { offset: None, limit: None }),
    {
        PopularityChartBuilder {
            offset: None,
            limit: None,
        }
    }
}

impl PopularityChartBuilder {
    /// Sets `offset`.
    pub fn offset(&mut self, value: usize) -> (r: &mut Self)
        ensures
            r@ == (PopularityChartModel { offset: Some(value), ..old(self)@ }),
            *final(self) == *final(r),
    {
        self.offset = Some(value);
        self
    }

    /// Sets `limit`.
    pub fn limit(&mut self, value: usize) -> (r: &mut Self)
        ensures
            r@ == (PopularityChartModel { limit: Some(value), ..old(self)@ }),
            *final(self) == *final(r),
    {
        self.limit = Some(value);
        self
    }

    /// The endpoint, when every needed field is set and the fields go together.
    pub fn build(&self) -> (r: Result<PopularityChart, BuilderError>)
        ensures
            r is Ok <==> self@.complete(),
            r is Ok ==> r->Ok_0@ == self@,
    {
        Ok(PopularityChart {
            offset: self.offset,
            limit: self.limit,
        })
    }
}

impl Endpoint for PopularityChart {
    open spec fn spec_method(&self) -> Method {
        Method::Get
    }

    open spec fn spec_path(&self) -> Seq<char> {
        "v01/stats/popularity/chart/"@
    }

    open spec fn spec_query(&self) -> Pairs {
        self@.query()
    }

    open spec fn spec_requires_api_key(&self) -> bool {
        true
    }

    fn method(&self) -> (r: Method) {
        Method::Get
    }

    fn endpoint(&self) -> (r: &'static str) {
        "v01/stats/popularity/chart/"
    }

    fn query_pairs(&self) -> (r: Vec<(String, String)>) {
        let mut pairs: Vec<(String, String)> = Vec::new();
        push_opt_usize(&mut pairs, "offset", self.offset);
        push_opt_usize(&mut pairs, "limit", self.limit);
        assert(pairs_view(pairs@) =~= self@.query());
        pairs
    }

    fn body(&self) -> (r: Result<Option<(&'static str, Vec<u8>)>, BodyError>) {
        Ok(None)
    }

    fn requires_api_key(&self) -> (r: bool) {
        true
    }

    fn requires_oauth_token(&self) -> (r: bool) {
        false
    }
}

} // verus!
