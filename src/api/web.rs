//! Regions and shops the service covers.
use vstd::prelude::*;

use super::endpoint::{Endpoint, Method};
use super::params::{
    list_param, opt_param, opt_view, pairs_view, push_opt, push_param, serialize_as_csv, Pairs,
};
use super::values::{lemma_take_one_more, strictly_sorted, ValueSet};
use super::error::{BodyError, BuilderError};
use crate::auth::copy_opt;

verus! {

/// Extra data a region listing can return.
#[derive(Debug, Clone, Copy, PartialEq, Eq, PartialOrd, Ord, Hash)]
pub enum RegionDisplayOptions {
    Names,
}

impl RegionDisplayOptions {
    /// The text the service uses for this value.
    pub open spec fn text(self) -> Seq<char> {
        match self {
            RegionDisplayOptions::Names => "names"@,
        }
    }

    /// The text the service uses for this value.
    pub fn as_str(&self) -> (r: &'static str)
        ensures
            r@ == self.text(),
    {
        match self {
            RegionDisplayOptions::Names => "names",
        }
    }
}

/// The fields of [`Regions`] and of
/// [`RegionsBuilder`]; a field that was not set is `None` or empty.
pub struct RegionsModel {
    pub optional: Seq<Seq<char>>,
}

impl RegionsModel {
    /// The query parameters, in field order.
    pub open spec fn query(self) -> Pairs {
        list_param("optional"@, self.optional)
    }

    /// Every field that the endpoint needs is set.
    pub open spec fn complete(self) -> bool {
        true
    }
}

/// Lists the regions.
#[derive(Debug)]
pub struct Regions {
    optional: ValueSet,
}

impl View for Regions {
    type V = RegionsModel;

    closed spec fn view(&self) -> RegionsModel {
        RegionsModel {
            optional: self.optional@,
        }
    }
}

impl Regions {
    /// Every value set it holds is in strictly increasing order.
    pub fn lemma_sorted(&self)
        ensures
            strictly_sorted(self@.optional),
    {
        self.optional.lemma_sorted();
    }
}

impl Clone for Regions {
    fn clone(&self) -> (r: Self)
        ensures
            r@ == self@,
    {
        Regions {
            optional: self.optional.clone(),
        }
    }
}

/// Collects the fields of [`Regions`] and checks them.
#[derive(Debug)]
pub struct RegionsBuilder {
    optional: ValueSet,
}

impl View for RegionsBuilder {
    type V = RegionsModel;

    closed spec fn view(&self) -> RegionsModel {
        RegionsModel {
            optional: self.optional@,
        }
    }
}

impl RegionsBuilder {
    /// Every value set it holds is in strictly increasing order.
    pub fn lemma_sorted(&self)
        ensures
            strictly_sorted(self@.optional),
    {
        self.optional.lemma_sorted();
    }
}

impl Clone for RegionsBuilder {
    fn clone(&self) -> (r: Self)
        ensures
            r@ == self@,
    {
        RegionsBuilder {
            optional: self.optional.clone(),
        }
    }
}

impl Regions {
    /// A builder with no field set.
    pub fn builder() -> (r: RegionsBuilder)
        ensures
            r@ == (RegionsModel { optional: seq![] }),
    {
        RegionsBuilder {
            optional: ValueSet::new(),
        }
    }
}

impl RegionsBuilder {
    /// Adds one value to `optional`.
    pub fn option(&mut self, option: RegionDisplayOptions) -> (r: &mut Self)
        ensures
            r@.optional.to_set() == old(self)@.optional.to_set().insert(option.text()),
            strictly_sorted(r@.optional),
            r@ == (RegionsModel { optional: r@.optional, ..old(self)@ }),
            *final(self) == *final(r),
    {
        self.optional.insert(option.as_str());
        self
    }

    /// Adds several values to `optional`.
    pub fn options(&mut self, options: &[RegionDisplayOptions]) -> (r: &mut Self)
        ensures
            r@.optional.to_set() == old(self)@.optional.to_set().union(
                options@.map_values(|o: RegionDisplayOptions| o.text()).to_set(),
            ),
            strictly_sorted(r@.optional),
            r@ == (RegionsModel { optional: r@.optional, ..old(self)@ }),
            *final(self) == *final(r),
    {
        let ghost added = options@.map_values(|o: RegionDisplayOptions| o.text());
        let mut i: usize = 0;
        assert(added.take(0).to_set() =~= Set::<Seq<char>>::empty());
        while i < options.len()
            invariant
                i <= added.len(),
                added == options@.map_values(|o: RegionDisplayOptions| o.text()),
                self@.optional.to_set() == old(self)@.optional.to_set().union(
                    added.take(i as int).to_set(),
                ),
                self@ == (RegionsModel { optional: self@.optional, ..old(self)@ }),
            decreases added.len() - i,
        {
            proof {
                lemma_take_one_more(added, i as int);
            }
            self.optional.insert(options[i].as_str());
            i = i + 1;
        }
        assert(added.take(i as int) =~= added);
        self.optional.lemma_sorted();
        self
    }

    /// The endpoint, when every needed field is set and the fields go together.
    pub fn build(&self) -> (r: Result<Regions, BuilderError>)
        ensures
            r is Ok <==> self@.complete(),
            r is Ok ==> r->Ok_0@ == self@,
    {
        Ok(Regions {
            optional: self.optional.clone(),
        })
    }
}

impl Endpoint for Regions {
    open spec fn spec_method(&self) -> Method {
        Method::Get
    }

    open spec fn spec_path(&self) -> Seq<char> {
        "v01/web/regions/"@
    }

    open spec fn spec_query(&self) -> Pairs {
        self@.query()
    }

    fn method(&self) -> (r: Method) {
        Method::Get
    }

    fn endpoint(&self) -> (r: &'static str) {
        "v01/web/regions/"
    }

    fn query_pairs(&self) -> (r: Vec<(String, String)>) {
        let mut pairs: Vec<(String, String)> = Vec::new();
        serialize_as_csv(&mut pairs, "optional", &self.optional);
        assert(pairs_view(pairs@) =~= self@.query());
        pairs
    }

    fn body(&self) -> (r: Result<Option<(&'static str, Vec<u8>)>, BodyError>) {
        Ok(None)
    }

    fn requires_api_key(&self) -> (r: bool) {
        false
    }

    fn requires_oauth_token(&self) -> (r: bool) {
        false
    }
}

/// Extra data a shop listing can return.
#[derive(Debug, Clone, Copy, PartialEq, Eq, PartialOrd, Ord, Hash)]
pub enum StoresDisplayOptions {
    Deals,
    Catalog,
}

impl StoresDisplayOptions {
    /// The text the service uses for this value.
    pub open spec fn text(self) -> Seq<char> {
        match self {
            StoresDisplayOptions::Deals => "deals"@,
            StoresDisplayOptions::Catalog => "catalog"@,
        }
    }

    /// The text the service uses for this value.
    pub fn as_str(&self) -> (r: &'static str)
        ensures
            r@ == self.text(),
    {
        match self {
            StoresDisplayOptions::Deals => "deals",
            StoresDisplayOptions::Catalog => "catalog",
        }
    }
}

/// The fields of [`StoresInRegion`] and of
/// [`StoresInRegionBuilder`]; a field that was not set is `None` or empty.
pub struct StoresInRegionModel {
    pub region: Option<Seq<char>>,
    pub country: Option<Seq<char>>,
    pub optional: Seq<Seq<char>>,
}

impl StoresInRegionModel {
    /// The query parameters, in field order.
    pub open spec fn query(self) -> Pairs {
        opt_param("region"@, self.region)
            + opt_param("country"@, self.country)
            + list_param("optional"@, self.optional)
    }

    /// Every field that the endpoint needs is set.
    pub open spec fn complete(self) -> bool {
        self.region is Some
    }
}

/// Lists the shops of a region.
#[derive(Debug)]
pub struct StoresInRegion {
    region: String,
    country: Option<String>,
    optional: ValueSet,
}

impl View for StoresInRegion {
    type V = StoresInRegionModel;

    closed spec fn view(&self) -> StoresInRegionModel {
        StoresInRegionModel {
            region: Some(self.region@),
            country: opt_view(self.country),
            optional: self.optional@,
        }
    }
}

impl StoresInRegion {
    /// Every value set it holds is in strictly increasing order.
    pub fn lemma_sorted(&self)
        ensures
            strictly_sorted(self@.optional),
    {
        self.optional.lemma_sorted();
    }
}

impl Clone for StoresInRegion {
    fn clone(&self) -> (r: Self)
        ensures
            r@ == self@,
    {
        StoresInRegion {
            region: self.region.clone(),
            country: copy_opt(&self.country),
            optional: self.optional.clone(),
        }
    }
}

/// Collects the fields of [`StoresInRegion`] and checks them.
#[derive(Debug)]
pub struct StoresInRegionBuilder {
    region: Option<String>,
    country: Option<String>,
    optional: ValueSet,
}

impl View for StoresInRegionBuilder {
    type V = StoresInRegionModel;

    closed spec fn view(&self) -> StoresInRegionModel {
        StoresInRegionModel {
            region: opt_view(self.region),
            country: opt_view(self.country),
            optional: self.optional@,
        }
    }
}

impl StoresInRegionBuilder {
    /// Every value set it holds is in strictly increasing order.
    pub fn lemma_sorted(&self)
        ensures
            strictly_sorted(self@.optional),
    {
        self.optional.lemma_sorted();
    }
}

impl Clone for StoresInRegionBuilder {
    fn clone(&self) -> (r: Self)
        ensures
            r@ == self@,
    {
        StoresInRegionBuilder {
            region: copy_opt(&self.region),
            country: copy_opt(&self.country),
            optional: self.optional.clone(),
        }
    }
}

impl StoresInRegion {
    /// A builder with no field set.
    pub fn builder() -> (r: StoresInRegionBuilder)
        ensures
            r@ == (StoresInRegionModel { region: None, country: None, optional: seq![] }),
    {
        StoresInRegionBuilder {
            region: None,
            country: None,
            optional: ValueSet::new(),
        }
    }
}

impl StoresInRegionBuilder {
    /// Sets `region`.
    pub fn region(&mut self, value: &str) -> (r: &mut Self)
        ensures
            r@ == (StoresInRegionModel { region: Some(value@), ..old(self)@ }),
            *final(self) == *final(r),
    {
        self.region = Some(value.to_string());
        self
    }

    /// Sets `country`.
    pub fn country(&mut self, value: &str) -> (r: &mut Self)
        ensures
            r@ == (StoresInRegionModel { country: Some(value@), ..old(self)@ }),
            *final(self) == *final(r),
    {
        self.country = Some(value.to_string());
        self
    }

    /// Adds one value to `optional`.
    pub fn option(&mut self, option: StoresDisplayOptions) -> (r: &mut Self)
        ensures
            r@.optional.to_set() == old(self)@.optional.to_set().insert(option.text()),
            strictly_sorted(r@.optional),
            r@ == (StoresInRegionModel { optional: r@.optional, ..old(self)@ }),
            *final(self) == *final(r),
    {
        self.optional.insert(option.as_str());
        self
    }

    /// Adds several values to `optional`.
    pub fn options(&mut self, options: &[StoresDisplayOptions]) -> (r: &mut Self)
        ensures
            r@.optional.to_set() == old(self)@.optional.to_set().union(
                options@.map_values(|o: StoresDisplayOptions| o.text()).to_set(),
            ),
            strictly_sorted(r@.optional),
            r@ == (StoresInRegionModel { optional: r@.optional, ..old(self)@ }),
            *final(self) == *final(r),
    {
        let ghost added = options@.map_values(|o: StoresDisplayOptions| o.text());
        let mut i: usize = 0;
        assert(added.take(0).to_set() =~= Set::<Seq<char>>::empty());
        while i < options.len()
            invariant
                i <= added.len(),
                added == options@.map_values(|o: StoresDisplayOptions| o.text()),
                self@.optional.to_set() == old(self)@.optional.to_set().union(
                    added.take(i as int).to_set(),
                ),
                self@ == (StoresInRegionModel { optional: self@.optional, ..old(self)@ }),
            decreases added.len() - i,
        {
            proof {
                lemma_take_one_more(added, i as int);
            }
            self.optional.insert(options[i].as_str());
            i = i + 1;
        }
        assert(added.take(i as int) =~= added);
        self.optional.lemma_sorted();
        self
    }

    /// The endpoint, when every needed field is set and the fields go together.
    pub fn build(&self) -> (r: Result<StoresInRegion, BuilderError>)
        ensures
            r is Ok <==> self@.complete(),
            r is Ok ==> r->Ok_0@ == self@,
            self@.region is None ==> r is Err && r->Err_0 is UninitializedField
                && r->Err_0->UninitializedField_0@ == "region"@,
    {
        let region = match &self.region {
            Some(v) => v.clone(),
            None => {
                return Err(BuilderError::UninitializedField("region"));
            },
        };
        Ok(StoresInRegion {
            region,
            country: copy_opt(&self.country),
            optional: self.optional.clone(),
        })
    }
}

impl Endpoint for StoresInRegion {
    open spec fn spec_method(&self) -> Method {
        Method::Get
    }

    open spec fn spec_path(&self) -> Seq<char> {
        "v02/web/stores/"@
    }

    open spec fn spec_query(&self) -> Pairs {
        self@.query()
    }

    fn method(&self) -> (r: Method) {
        Method::Get
    }

    fn endpoint(&self) -> (r: &'static str) {
        "v02/web/stores/"
    }

    fn query_pairs(&self) -> (r: Vec<(String, String)>) {
        let mut pairs: Vec<(String, String)> = Vec::new();
        push_param(&mut pairs, "region", self.region.as_str());
        push_opt(&mut pairs, "country", &self.country);
        serialize_as_csv(&mut pairs, "optional", &self.optional);
        assert(pairs_view(pairs@) =~= self@.query());
        pairs
    }

    fn body(&self) -> (r: Result<Option<(&'static str, Vec<u8>)>, BodyError>) {
        Ok(None)
    }

    fn requires_api_key(&self) -> (r: bool) {
        false
    }

    fn requires_oauth_token(&self) -> (r: bool) {
        false
    }
}

/// Lists every shop the service covers.
#[derive(Debug, Clone, Copy, PartialEq, Eq)]
pub struct CoveredStores {}

impl CoveredStores {
    pub fn new() -> (r: Self)
        ensures
            r == (CoveredStores {}),
    {
        CoveredStores {}
    }
}

impl Endpoint for CoveredStores {
    open spec fn spec_method(&self) -> Method {
        Method::Get
    }

    open spec fn spec_path(&self) -> Seq<char> {
        "v01/web/stores/all/"@
    }

    fn method(&self) -> (r: Method) {
        Method::Get
    }

    fn endpoint(&self) -> (r: &'static str) {
        "v01/web/stores/all/"
    }

    fn query_pairs(&self) -> (r: Vec<(String, String)>) {
        let mut pairs: Vec<(String, String)> = Vec::new();
        assert(pairs_view(pairs@) =~= seq![]);
        pairs
    }

    fn body(&self) -> (r: Result<Option<(&'static str, Vec<u8>)>, BodyError>) {
        Ok(None)
    }

    fn requires_api_key(&self) -> (r: bool) {
        false
    }

    fn requires_oauth_token(&self) -> (r: bool) {
        false
    }
}

} // verus!
