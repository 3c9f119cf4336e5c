//! Current deals.
use vstd::prelude::*;

use super::endpoint::{Endpoint, Method};
use super::params::{
    list_param, opt_param, opt_usize_text, opt_view, pairs_view, push_opt, push_opt_usize,
    push_param, serialize_as_csv, Pairs,
};
use super::values::{lemma_take_one_more, strictly_sorted, strs_view, ValueSet};
use super::error::{BodyError, BuilderError};
use crate::auth::copy_opt;

verus! {

/// How deals are ordered, and in which direction.
#[derive(Debug, Clone, Copy, PartialEq, Eq)]
pub enum DealsSorting {
    Time(Direction),
    Price(Direction),
    Cut(Direction),
    Expiry(Direction),
}

impl DealsSorting {
    /// `<field>:<direction>`, as the service reads it.
    pub open spec fn text(self) -> Seq<char> {
        match self {
            DealsSorting::Time(d) => "time:"@ + d.text(),
            DealsSorting::Price(d) => "price:"@ + d.text(),
            DealsSorting::Cut(d) => "cut:"@ + d.text(),
            DealsSorting::Expiry(d) => "expiry:"@ + d.text(),
        }
    }
}

/// Appends `sort=<field>:<direction>` when a sorting is set.
pub fn serialize_sorting(pairs: &mut Vec<(String, String)>, value: &Option<DealsSorting>)
    ensures
        pairs_view(final(pairs)@) == pairs_view(old(pairs)@) + opt_param(
            "sort"@,
            match *value {
                Some(v) => Some(v.text()),
                None => None,
            },
        ),
{
    match value {
        Some(sorting) => {
            let mut out = String::new();
            let direction = match sorting {
                DealsSorting::Time(direction) => {
                    out.append("time:");
                    direction
                },
                DealsSorting::Price(direction) => {
                    out.append("price:");
                    direction
                },
                DealsSorting::Cut(direction) => {
                    out.append("cut:");
                    direction
                },
                DealsSorting::Expiry(direction) => {
                    out.append("expiry:");
                    direction
                },
            };
            out.append(direction.as_str());
            assert(out@ =~= sorting.text());
            push_param(pairs, "sort", out.as_str());
        },
        None => {
            assert(pairs_view(final(pairs)@) =~= pairs_view(old(pairs)@));
        },
    }
}

/// A sort direction.
#[derive(Debug, Clone, Copy, PartialEq, Eq, PartialOrd, Ord, Hash)]
pub enum Direction {
    Asc,
    Desc,
}

impl Direction {
    /// The text the service uses for this value.
    pub open spec fn text(self) -> Seq<char> {
        match self {
            Direction::Asc => "asc"@,
            Direction::Desc => "desc"@,
        }
    }

    /// The text the service uses for this value.
    pub fn as_str(&self) -> (r: &'static str)
        ensures
            r@ == self.text(),
    {
        match self {
            Direction::Asc => "asc",
            Direction::Desc => "desc",
        }
    }
}

/// The fields of [`DealsList`] and of
/// [`DealsListBuilder`]; a field that was not set is `None` or empty.
pub struct DealsListModel {
    pub offset: Option<usize>,
    pub limit: Option<usize>,
    pub region: Option<Seq<char>>,
    pub country: Option<Seq<char>>,
    pub shops: Seq<Seq<char>>,
    pub sort: Option<DealsSorting>,
}

impl DealsListModel {
    /// The query parameters, in field order.
    pub open spec fn query(self) -> Pairs {
        opt_param("offset"@, opt_usize_text(self.offset))
            + opt_param("limit"@, opt_usize_text(self.limit))
            + opt_param("region"@, self.region)
            + opt_param("country"@, self.country)
            + list_param("shops"@, self.shops)
            + opt_param(
            "sort"@,
            match self.sort {
                Some(v) => Some(v.text()),
                None => None,
            },
        )
    }

    /// Every field that the endpoint needs is set.
    pub open spec fn complete(self) -> bool {
        true
    }
}

/// Lists current deals.
#[derive(Debug)]
pub struct DealsList {
    offset: Option<usize>,
    limit: Option<usize>,
    region: Option<String>,
    country: Option<String>,
    shops: ValueSet,
    sort: Option<DealsSorting>,
}

impl View for DealsList {
    type V = DealsListModel;

    closed spec fn view(&self) -> DealsListModel {
        DealsListModel {
            offset: self.offset,
            limit: self.limit,
            region: opt_view(self.region),
            country: opt_view(self.country),
            shops: self.shops@,
            sort: self.sort,
        }
    }
}

impl DealsList {
    /// Every value set it holds is in strictly increasing order.
    pub fn lemma_sorted(&self)
        ensures
            strictly_sorted(self@.shops),
    {
        self.shops.lemma_sorted();
    }
}

impl Clone for DealsList {
    fn clone(&self) -> (r: Self)
        ensures
            r@ == self@,
    {
        DealsList {
            offset: self.offset,
            limit: self.limit,
            region: copy_opt(&self.region),
            country: copy_opt(&self.country),
            shops: self.shops.clone(),
            sort: self.sort,
        }
    }
}

/// Collects the fields of [`DealsList`] and checks them.
#[derive(Debug)]
pub struct DealsListBuilder {
    offset: Option<usize>,
    limit: Option<usize>,
    region: Option<String>,
    country: Option<String>,
    shops: ValueSet,
    sort: Option<DealsSorting>,
}

impl View for DealsListBuilder {
    type V = DealsListModel;

    closed spec fn view(&self) -> DealsListModel {
        DealsListModel {
            offset: self.offset,
            limit: self.limit,
            region: opt_view(self.region),
            country: opt_view(self.country),
            shops: self.shops@,
            sort: self.sort,
        }
    }
}

impl DealsListBuilder {
    /// Every value set it holds is in strictly increasing order.
    pub fn lemma_sorted(&self)
        ensures
            strictly_sorted(self@.shops),
    {
        self.shops.lemma_sorted();
    }
}

impl Clone for DealsListBuilder {
    fn clone(&self) -> (r: Self)
        ensures
            r@ == self@,
    {
        DealsListBuilder {
            offset: self.offset,
            limit: self.limit,
            region: copy_opt(&self.region),
            country: copy_opt(&self.country),
            shops: self.shops.clone(),
            sort: self.sort,
        }
    }
}

impl DealsList {
    /// A builder with no field set.
    pub fn builder() -> (r: DealsListBuilder)
        ensures
            r@ == (DealsListModel {
                offset: None,
                limit: None,
                region: None,
                country: None,
                shops: seq![],
                sort: None,
            }),
    {
        DealsListBuilder {
            offset: None,
            limit: None,
            region: None,
            country: None,
            shops: ValueSet::new(),
            sort: None,
        }
    }
}

impl DealsListBuilder {
    /// Sets `offset`.
    pub fn offset(&mut self, value: usize) -> (r: &mut Self)
        ensures
            r@ == (DealsListModel { offset: Some(value), ..old(self)@ }),
            *final(self) == *final(r),
    {
        self.offset = Some(value);
        self
    }

    /// Sets `limit`.
    pub fn limit(&mut self, value: usize) -> (r: &mut Self)
        ensures
            r@ == (DealsListModel { limit: Some(value), ..old(self)@ }),
            *final(self) == *final(r),
    {
        self.limit = Some(value);
        self
    }

    /// Sets `region`.
    pub fn region(&mut self, value: &str) -> (r: &mut Self)
        ensures
            r@ == (DealsListModel { region: Some(value@), ..old(self)@ }),
            *final(self) == *final(r),
    {
        self.region = Some(value.to_string());
        self
    }

    /// Sets `country`.
    pub fn country(&mut self, value: &str) -> (r: &mut Self)
        ensures
            r@ == (DealsListModel { country: Some(value@), ..old(self)@ }),
            *final(self) == *final(r),
    {
        self.country = Some(value.to_string());
        self
    }

    /// Adds one value to `shops`.
    pub fn shop(&mut self, shop: &str) -> (r: &mut Self)
        ensures
            r@.shops.to_set() == old(self)@.shops.to_set().insert(shop@),
            strictly_sorted(r@.shops),
            r@ == (DealsListModel { shops: r@.shops, ..old(self)@ }),
            *final(self) == *final(r),
    {
        self.shops.insert(shop);
        self
    }

    /// Adds several values to `shops`.
    pub fn shops(&mut self, shops: &[&str]) -> (r: &mut Self)
        ensures
            r@.shops.to_set() == old(self)@.shops.to_set().union(
                strs_view(shops@).to_set(),
            ),
            strictly_sorted(r@.shops),
            r@ == (DealsListModel { shops: r@.shops, ..old(self)@ }),
            *final(self) == *final(r),
    {
        let ghost added = strs_view(shops@);
        let mut i: usize = 0;
        assert(added.take(0).to_set() =~= Set::<Seq<char>>::empty());
        while i < shops.len()
            invariant
                i <= added.len(),
                added == strs_view(shops@),
                self@.shops.to_set() == old(self)@.shops.to_set().union(
                    added.take(i as int).to_set(),
                ),
                self@ == (DealsListModel { shops: self@.shops, ..old(self)@ }),
            decreases added.len() - i,
        {
            proof {
                lemma_take_one_more(added, i as int);
            }
            self.shops.insert(shops[i]);
            i = i + 1;
        }
        assert(added.take(i as int) =~= added);
        self.shops.lemma_sorted();
        self
    }

    /// Sets `sort`.
    pub fn sort(&mut self, value: DealsSorting) -> (r: &mut Self)
        ensures
            r@ == (DealsListModel { sort: Some(value), ..old(self)@ }),
            *final(self) == *final(r),
    {
        self.sort = Some(value);
        self
    }

    /// The endpoint, when every needed field is set and the fields go together.
    pub fn build(&self) -> (r: Result<DealsList, BuilderError>)
        ensures
            r is Ok <==> self@.complete(),
            r is Ok ==> r->Ok_0@ == self@,
    {
        Ok(DealsList {
            offset: self.offset,
            limit: self.limit,
            region: copy_opt(&self.region),
            country: copy_opt(&self.country),
            shops: self.shops.clone(),
            sort: self.sort,
        })
    }
}

impl Endpoint for DealsList {
    open spec fn spec_method(&self) -> Method {
        Method::Get
    }

    open spec fn spec_path(&self) -> Seq<char> {
        "v01/deals/list/"@
    }

    open spec fn spec_query(&self) -> Pairs {
        self@.query()
    }

    open spec fn spec_requires_api_key(&self) -> bool {
        true
    }

    fn method(&self) -> (r: Method) {
        Method::Get
    }

    fn endpoint(&self) -> (r: &'static str) {
        "v01/deals/list/"
    }

    fn query_pairs(&self) -> (r: Vec<(String, String)>) {
        let mut pairs: Vec<(String, String)> = Vec::new();
        push_opt_usize(&mut pairs, "offset", self.offset);
        push_opt_usize(&mut pairs, "limit", self.limit);
        push_opt(&mut pairs, "region", &self.region);
        push_opt(&mut pairs, "country", &self.country);
        serialize_as_csv(&mut pairs, "shops", &self.shops);
        serialize_sorting(&mut pairs, &self.sort);
        assert(pairs_view(pairs@) =~= self@.query());
        pairs
    }

    fn body(&self) -> (r: Result<Option<(&'static str, Vec<u8>)>, BodyError>) {
        Ok(None)
    }

    fn requires_api_key(&self) -> (r: bool) {
        true
    }

    fn requires_oauth_token(&self) -> (r: bool) {
        false
    }
}

} // verus!
