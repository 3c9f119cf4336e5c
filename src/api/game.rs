//! Games: identifiers, prices, lows, bundles, information and overviews.
use vstd::prelude::*;

use super::endpoint::{Endpoint, Method};
use super::params::{
    form_encoded, key_if, keys, lemma_keys_concat, lemma_list_param_keys, lemma_opt_param_keys,
    list_param, opt_bool_text, opt_i64_text, opt_param, opt_u64_text, opt_view, pairs_view,
    push_opt, push_opt_bool, push_opt_i64, push_opt_u64, push_param, serialize_as_csv, Pairs,
};
use super::values::{
    lemma_sorted_canonical, lemma_take_one_more, strictly_sorted, strs_view, ValueSet,
};
use super::error::{BodyError, BuilderError};
use crate::auth::copy_opt;

verus! {

/// Extra data a lookup of identifiers can return.
#[derive(Debug, Clone, Copy, PartialEq, Eq, PartialOrd, Ord, Hash)]
pub enum IdentifierOptions {
    Title,
}

impl IdentifierOptions {
    /// The text the service uses for this value.
    pub open spec fn text(self) -> Seq<char> {
        match self {
            IdentifierOptions::Title => "title"@,
        }
    }

    /// The text the service uses for this value.
    pub fn as_str(&self) -> (r: &'static str)
        ensures
            r@ == self.text(),
    {
        match self {
            IdentifierOptions::Title => "title",
        }
    }
}

/// The fields of [`Identifier`] and of
/// [`IdentifierBuilder`]; a field that was not set is `None` or empty.
pub struct IdentifierModel {
    pub shop: Option<Seq<char>>,
    pub game_id: Option<Seq<char>>,
    pub url: Option<Seq<char>>,
    pub title: Option<Seq<char>>,
    pub optional: Seq<Seq<char>>,
}

impl IdentifierModel {
    /// The query parameters, in field order.
    pub open spec fn query(self) -> Pairs {
        opt_param("shop"@, self.shop)
            + opt_param("game_id"@, self.game_id)
            + opt_param("url"@, self.url)
            + opt_param("title"@, self.title)
            + list_param("optional"@, self.optional)
    }

    /// Every field that the endpoint needs is set.
    pub open spec fn complete(self) -> bool {
        true
    }

    /// A lookup by game id or by URL names the shop.
    pub open spec fn valid(self) -> bool {
        !(self.game_id is Some && self.shop is None) && !(self.url is Some && self.shop is None)
    }
}

/// Looks up a game's plain name by shop id, URL or title.
#[derive(Debug)]
pub struct Identifier {
    shop: Option<String>,
    game_id: Option<String>,
    url: Option<String>,
    title: Option<String>,
    optional: ValueSet,
}

impl View for Identifier {
    type V = IdentifierModel;

    closed spec fn view(&self) -> IdentifierModel {
        IdentifierModel {
            shop: opt_view(self.shop),
            game_id: opt_view(self.game_id),
            url: opt_view(self.url),
            title: opt_view(self.title),
            optional: self.optional@,
        }
    }
}

impl Identifier {
    /// Every value set it holds is in strictly increasing order.
    pub fn lemma_sorted(&self)
        ensures
            strictly_sorted(self@.optional),
    {
        self.optional.lemma_sorted();
    }
}

impl Clone for Identifier {
    fn clone(&self) -> (r: Self)
        ensures
            r@ == self@,
    {
        Identifier {
            shop: copy_opt(&self.shop),
            game_id: copy_opt(&self.game_id),
            url: copy_opt(&self.url),
            title: copy_opt(&self.title),
            optional: self.optional.clone(),
        }
    }
}

/// Collects the fields of [`Identifier`] and checks them.
#[derive(Debug)]
pub struct IdentifierBuilder {
    shop: Option<String>,
    game_id: Option<String>,
    url: Option<String>,
    title: Option<String>,
    optional: ValueSet,
}

impl View for IdentifierBuilder {
    type V = IdentifierModel;

    closed spec fn view(&self) -> IdentifierModel {
        IdentifierModel {
            shop: opt_view(self.shop),
            game_id: opt_view(self.game_id),
            url: opt_view(self.url),
            title: opt_view(self.title),
            optional: self.optional@,
        }
    }
}

impl IdentifierBuilder {
    /// Every value set it holds is in strictly increasing order.
    pub fn lemma_sorted(&self)
        ensures
            strictly_sorted(self@.optional),
    {
        self.optional.lemma_sorted();
    }
}

impl Clone for IdentifierBuilder {
    fn clone(&self) -> (r: Self)
        ensures
            r@ == self@,
    {
        IdentifierBuilder {
            shop: copy_opt(&self.shop),
            game_id: copy_opt(&self.game_id),
            url: copy_opt(&self.url),
            title: copy_opt(&self.title),
            optional: self.optional.clone(),
        }
    }
}

impl Identifier {
    /// A builder with no field set.
    pub fn builder() -> (r: IdentifierBuilder)
        ensures
            r@ == (IdentifierModel {
                shop: None,
                game_id: None,
                url: None,
                title: None,
                optional: seq![],
            }),
    {
        IdentifierBuilder {
            shop: None,
            game_id: None,
            url: None,
            title: None,
            optional: ValueSet::new(),
        }
    }
}

impl IdentifierBuilder {
    /// Sets `shop`.
    pub fn shop(&mut self, value: &str) -> (r: &mut Self)
        ensures
            r@ == (IdentifierModel { shop: Some(value@), ..old(self)@ }),
            *final(self) == *final(r),
    {
        self.shop = Some(value.to_string());
        self
    }

    /// Sets `game_id`.
    pub fn game_id(&mut self, value: &str) -> (r: &mut Self)
        ensures
            r@ == (IdentifierModel { game_id: Some(value@), ..old(self)@ }),
            *final(self) == *final(r),
    {
        self.game_id = Some(value.to_string());
        self
    }

    /// Sets `url`.
    pub fn url(&mut self, value: &str) -> (r: &mut Self)
        ensures
            r@ == (IdentifierModel { url: Some(value@), ..old(self)@ }),
            *final(self) == *final(r),
    {
        self.url = Some(value.to_string());
        self
    }

    /// Sets `title`.
    pub fn title(&mut self, value: &str) -> (r: &mut Self)
        ensures
            r@ == (IdentifierModel { title: Some(value@), ..old(self)@ }),
            *final(self) == *final(r),
    {
        self.title = Some(value.to_string());
        self
    }

    /// Adds one value to `optional`.
    pub fn option(&mut self, option: IdentifierOptions) -> (r: &mut Self)
        ensures
            r@.optional.to_set() == old(self)@.optional.to_set().insert(option.text()),
            strictly_sorted(r@.optional),
            r@ == (IdentifierModel { optional: r@.optional, ..old(self)@ }),
            *final(self) == *final(r),
    {
        self.optional.insert(option.as_str());
        self
    }

    /// Adds several values to `optional`.
    pub fn options(&mut self, options: &[IdentifierOptions]) -> (r: &mut Self)
        ensures
            r@.optional.to_set() == old(self)@.optional.to_set().union(
                options@.map_values(|o: IdentifierOptions| o.text()).to_set(),
            ),
            strictly_sorted(r@.optional),
            r@ == (IdentifierModel { optional: r@.optional, ..old(self)@ }),
            *final(self) == *final(r),
    {
        let ghost added = options@.map_values(|o: IdentifierOptions| o.text());
        let mut i: usize = 0;
        assert(added.take(0).to_set() =~= Set::<Seq<char>>::empty());
        while i < options.len()
            invariant
                i <= added.len(),
                added == options@.map_values(|o: IdentifierOptions| o.text()),
                self@.optional.to_set() == old(self)@.optional.to_set().union(
                    added.take(i as int).to_set(),
                ),
                self@ == (IdentifierModel { optional: self@.optional, ..old(self)@ }),
            decreases added.len() - i,
        {
            proof {
                lemma_take_one_more(added, i as int);
            }
            self.optional.insert(options[i].as_str());
            i = i + 1;
        }
        assert(added.take(i as int) =~= added);
        self.optional.lemma_sorted();
        self
    }

    /// Checks the rules on fields that go together.
    pub fn validate(&self) -> (r: Result<(), String>)
        ensures
            r is Ok <==> self@.valid(),
            self@.game_id is Some && self@.shop is None
                ==> r is Err && r->Err_0@ == "Shop is required to be set when looking up by ID"@,
            self@.game_id is None && self@.url is Some && self@.shop is None
                ==> r is Err && r->Err_0@ == "Shop is required to be set when looking up by URL"@,
    {
        if self.game_id.is_some() && self.shop.is_none() {
            return Err("Shop is required to be set when looking up by ID".to_string());
        }
        if self.url.is_some() && self.shop.is_none() {
            return Err("Shop is required to be set when looking up by URL".to_string());
        }
        Ok(())
    }

    /// The endpoint, when every needed field is set and the fields go together.
    pub fn build(&self) -> (r: Result<Identifier, BuilderError>)
        ensures
            r is Ok <==> self@.valid() && self@.complete(),
            r is Ok ==> r->Ok_0@ == self@,
            self@.game_id is Some && self@.shop is None
                ==> r is Err
                && r->Err_0 is ValidationError
                && r->Err_0->ValidationError_0@
                == "Shop is required to be set when looking up by ID"@,
            self@.game_id is None && self@.url is Some && self@.shop is None
                ==> r is Err
                && r->Err_0 is ValidationError
                && r->Err_0->ValidationError_0@
                == "Shop is required to be set when looking up by URL"@,
    {
        match self.validate() {
            Ok(()) => {},
            Err(msg) => {
                return Err(BuilderError::ValidationError(msg));
            },
        }
        Ok(Identifier {
            shop: copy_opt(&self.shop),
            game_id: copy_opt(&self.game_id),
            url: copy_opt(&self.url),
            title: copy_opt(&self.title),
            optional: self.optional.clone(),
        })
    }
}

impl Endpoint for Identifier {
    open spec fn spec_method(&self) -> Method {
        Method::Get
    }

    open spec fn spec_path(&self) -> Seq<char> {
        "v02/game/plain/"@
    }

    open spec fn spec_query(&self) -> Pairs {
        self@.query()
    }

    open spec fn spec_requires_api_key(&self) -> bool {
        true
    }

    fn method(&self) -> (r: Method) {
        Method::Get
    }

    fn endpoint(&self) -> (r: &'static str) {
        "v02/game/plain/"
    }

    fn query_pairs(&self) -> (r: Vec<(String, String)>) {
        let mut pairs: Vec<(String, String)> = Vec::new();
        push_opt(&mut pairs, "shop", &self.shop);
        push_opt(&mut pairs, "game_id", &self.game_id);
        push_opt(&mut pairs, "url", &self.url);
        push_opt(&mut pairs, "title", &self.title);
        serialize_as_csv(&mut pairs, "optional", &self.optional);
        assert(pairs_view(pairs@) =~= self@.query());
        pairs
    }

    fn body(&self) -> (r: Result<Option<(&'static str, Vec<u8>)>, BodyError>) {
        Ok(None)
    }

    fn requires_api_key(&self) -> (r: bool) {
        true
    }

    fn requires_oauth_token(&self) -> (r: bool) {
        false
    }
}

/// The fields of [`MultiplePlainsById`] and of
/// [`MultiplePlainsByIdBuilder`]; a field that was not set is `None` or empty.
pub struct MultiplePlainsByIdModel {
    pub shop: Option<Seq<char>>,
    pub ids: Seq<Seq<char>>,
}

impl MultiplePlainsByIdModel {
    /// The query parameters, in field order.
    pub open spec fn query(self) -> Pairs {
        opt_param("shop"@, self.shop)
            + list_param("ids"@, self.ids)
    }

    /// Every field that the endpoint needs is set.
    pub open spec fn complete(self) -> bool {
        self.shop is Some
    }
}

/// Looks up the plain names of several shop ids.
#[derive(Debug)]
pub struct MultiplePlainsById {
    shop: String,
    ids: ValueSet,
}

impl View for MultiplePlainsById {
    type V = MultiplePlainsByIdModel;

    closed spec fn view(&self) -> MultiplePlainsByIdModel {
        MultiplePlainsByIdModel {
            shop: Some(self.shop@),
            ids: self.ids@,
        }
    }
}

impl MultiplePlainsById {
    /// Every value set it holds is in strictly increasing order.
    pub fn lemma_sorted(&self)
        ensures
            strictly_sorted(self@.ids),
    {
        self.ids.lemma_sorted();
    }
}

impl Clone for MultiplePlainsById {
    fn clone(&self) -> (r: Self)
        ensures
            r@ == self@,
    {
        MultiplePlainsById {
            shop: self.shop.clone(),
            ids: self.ids.clone(),
        }
    }
}

/// Collects the fields of [`MultiplePlainsById`] and checks them.
#[derive(Debug)]
pub struct MultiplePlainsByIdBuilder {
    shop: Option<String>,
    ids: ValueSet,
}

impl View for MultiplePlainsByIdBuilder {
    type V = MultiplePlainsByIdModel;

    closed spec fn view(&self) -> MultiplePlainsByIdModel {
        MultiplePlainsByIdModel {
            shop: opt_view(self.shop),
            ids: self.ids@,
        }
    }
}

impl MultiplePlainsByIdBuilder {
    /// Every value set it holds is in strictly increasing order.
    pub fn lemma_sorted(&self)
        ensures
            strictly_sorted(self@.ids),
    {
        self.ids.lemma_sorted();
    }
}

impl Clone for MultiplePlainsByIdBuilder {
    fn clone(&self) -> (r: Self)
        ensures
            r@ == self@,
    {
        MultiplePlainsByIdBuilder {
            shop: copy_opt(&self.shop),
            ids: self.ids.clone(),
        }
    }
}

impl MultiplePlainsById {
    /// A builder with no field set.
    pub fn builder() -> (r: MultiplePlainsByIdBuilder)
        ensures
            r@ == (MultiplePlainsByIdModel { shop: None, ids: seq![] }),
    {
        MultiplePlainsByIdBuilder {
            shop: None,
            ids: ValueSet::new(),
        }
    }
}

impl MultiplePlainsByIdBuilder {
    /// Sets `shop`.
    pub fn shop(&mut self, value: &str) -> (r: &mut Self)
        ensures
            r@ == (MultiplePlainsByIdModel { shop: Some(value@), ..old(self)@ }),
            *final(self) == *final(r),
    {
        self.shop = Some(value.to_string());
        self
    }

    /// Adds one value to `ids`.
    pub fn id(&mut self, id: &str) -> (r: &mut Self)
        ensures
            r@.ids.to_set() == old(self)@.ids.to_set().insert(id@),
            strictly_sorted(r@.ids),
            r@ == (MultiplePlainsByIdModel { ids: r@.ids, ..old(self)@ }),
            *final(self) == *final(r),
    {
        self.ids.insert(id);
        self
    }

    /// Adds several values to `ids`.
    pub fn ids(&mut self, ids: &[&str]) -> (r: &mut Self)
        ensures
            r@.ids.to_set() == old(self)@.ids.to_set().union(
                strs_view(ids@).to_set(),
            ),
            strictly_sorted(r@.ids),
            r@ == (MultiplePlainsByIdModel { ids: r@.ids, ..old(self)@ }),
            *final(self) == *final(r),
    {
        let ghost added = strs_view(ids@);
        let mut i: usize = 0;
        assert(added.take(0).to_set() =~= Set::<Seq<char>>::empty());
        while i < ids.len()
            invariant
                i <= added.len(),
                added == strs_view(ids@),
                self@.ids.to_set() == old(self)@.ids.to_set().union(
                    added.take(i as int).to_set(),
                ),
                self@ == (MultiplePlainsByIdModel { ids: self@.ids, ..old(self)@ }),
            decreases added.len() - i,
        {
            proof {
                lemma_take_one_more(added, i as int);
            }
            self.ids.insert(ids[i]);
            i = i + 1;
        }
        assert(added.take(i as int) =~= added);
        self.ids.lemma_sorted();
        self
    }

    /// The endpoint, when every needed field is set and the fields go together.
    pub fn build(&self) -> (r: Result<MultiplePlainsById, BuilderError>)
        ensures
            r is Ok <==> self@.complete(),
            r is Ok ==> r->Ok_0@ == self@,
            self@.shop is None ==> r is Err && r->Err_0 is UninitializedField
                && r->Err_0->UninitializedField_0@ == "shop"@,
    {
        let shop = match &self.shop {
            Some(v) => v.clone(),
            None => {
                return Err(BuilderError::UninitializedField("shop"));
            },
        };
        Ok(MultiplePlainsById {
            shop,
            ids: self.ids.clone(),
        })
    }
}

impl Endpoint for MultiplePlainsById {
    open spec fn spec_method(&self) -> Method {
        Method::Get
    }

    open spec fn spec_path(&self) -> Seq<char> {
        "v01/game/plain/id/"@
    }

    open spec fn spec_query(&self) -> Pairs {
        self@.query()
    }

    open spec fn spec_requires_api_key(&self) -> bool {
        true
    }

    fn method(&self) -> (r: Method) {
        Method::Get
    }

    fn endpoint(&self) -> (r: &'static str) {
        "v01/game/plain/id/"
    }

    fn query_pairs(&self) -> (r: Vec<(String, String)>) {
        let mut pairs: Vec<(String, String)> = Vec::new();
        push_param(&mut pairs, "shop", self.shop.as_str());
        serialize_as_csv(&mut pairs, "ids", &self.ids);
        assert(pairs_view(pairs@) =~= self@.query());
        pairs
    }

    fn body(&self) -> (r: Result<Option<(&'static str, Vec<u8>)>, BodyError>) {
        Ok(None)
    }

    fn requires_api_key(&self) -> (r: bool) {
        true
    }

    fn requires_oauth_token(&self) -> (r: bool) {
        false
    }
}

/// The fields of [`AllPlains`] and of
/// [`AllPlainsBuilder`]; a field that was not set is `None` or empty.
pub struct AllPlainsModel {
    pub shop: Option<Seq<char>>,
}

impl AllPlainsModel {
    /// The query parameters, in field order.
    pub open spec fn query(self) -> Pairs {
        opt_param("shop"@, self.shop)
    }

    /// Every field that the endpoint needs is set.
    pub open spec fn complete(self) -> bool {
        self.shop is Some
    }
}

/// Lists every plain name of a shop.
#[derive(Debug)]
pub struct AllPlains {
    shop: String,
}

impl View for AllPlains {
    type V = AllPlainsModel;

    closed spec fn view(&self) -> AllPlainsModel {
        AllPlainsModel {
            shop: Some(self.shop@),
        }
    }
}

impl Clone for AllPlains {
    fn clone(&self) -> (r: Self)
        ensures
            r@ == self@,
    {
        AllPlains {
            shop: self.shop.clone(),
        }
    }
}

/// Collects the fields of [`AllPlains`] and checks them.
#[derive(Debug)]
pub struct AllPlainsBuilder {
    shop: Option<String>,
}

impl View for AllPlainsBuilder {
    type V = AllPlainsModel;

    closed spec fn view(&self) -> AllPlainsModel {
        AllPlainsModel {
            shop: opt_view(self.shop),
        }
    }
}

impl Clone for AllPlainsBuilder {
    fn clone(&self) -> (r: Self)
        ensures
            r@ == self@,
    {
        AllPlainsBuilder {
            shop: copy_opt(&self.shop),
        }
    }
}

impl AllPlains {
    /// A builder with no field set.
    pub fn builder() -> (r: AllPlainsBuilder)
        ensures
            r@ == (AllPlainsModel { shop: None }),
    {
        AllPlainsBuilder {
            shop: None,
        }
    }
}

impl AllPlainsBuilder {
    /// Sets `shop`.
    pub fn shop(&mut self, value: &str) -> (r: &mut Self)
        ensures
            r@ == (AllPlainsModel { shop: Some(value@), ..old(self)@ }),
            *final(self) == *final(r),
    {
        self.shop = Some(value.to_string());
        self
    }

    /// The endpoint, when every needed field is set and the fields go together.
    pub fn build(&self) -> (r: Result<AllPlains, BuilderError>)
        ensures
            r is Ok <==> self@.complete(),
            r is Ok ==> r->Ok_0@ == self@,
            self@.shop is None ==> r is Err && r->Err_0 is UninitializedField
                && r->Err_0->UninitializedField_0@ == "shop"@,
    {
        let shop = match &self.shop {
            Some(v) => v.clone(),
            None => {
                return Err(BuilderError::UninitializedField("shop"));
            },
        };
        Ok(AllPlains {
            shop,
        })
    }
}

impl Endpoint for AllPlains {
    open spec fn spec_method(&self) -> Method {
        Method::Get
    }

    open spec fn spec_path(&self) -> Seq<char> {
        "v01/game/plain/list/"@
    }

    open spec fn spec_query(&self) -> Pairs {
        self@.query()
    }

    open spec fn spec_requires_api_key(&self) -> bool {
        true
    }

    fn method(&self) -> (r: Method) {
        Method::Get
    }

    fn endpoint(&self) -> (r: &'static str) {
        "v01/game/plain/list/"
    }

    fn query_pairs(&self) -> (r: Vec<(String, String)>) {
        let mut pairs: Vec<(String, String)> = Vec::new();
        push_param(&mut pairs, "shop", self.shop.as_str());
        assert(pairs_view(pairs@) =~= self@.query());
        pairs
    }

    fn body(&self) -> (r: Result<Option<(&'static str, Vec<u8>)>, BodyError>) {
        Ok(None)
    }

    fn requires_api_key(&self) -> (r: bool) {
        true
    }

    fn requires_oauth_token(&self) -> (r: bool) {
        false
    }
}

/// The direction of a map between shop ids and plain names.
#[derive(Debug, Clone, Copy, PartialEq, Eq, PartialOrd, Ord, Hash)]
pub enum MapType {
    PlainToId,
    IdToPlain,
}

impl MapType {
    /// The text the service uses for this value.
    pub open spec fn text(self) -> Seq<char> {
        match self {
            MapType::PlainToId => "plain:id"@,
            MapType::IdToPlain => "id:plain"@,
        }
    }

    /// The text the service uses for this value.
    pub fn as_str(&self) -> (r: &'static str)
        ensures
            r@ == self.text(),
    {
        match self {
            MapType::PlainToId => "plain:id",
            MapType::IdToPlain => "id:plain",
        }
    }
}

/// The fields of [`IdPlainMap`] and of
/// [`IdPlainMapBuilder`]; a field that was not set is `None` or empty.
pub struct IdPlainMapModel {
    pub shop: Option<Seq<char>>,
    pub type_field: Option<MapType>,
}

impl IdPlainMapModel {
    /// The query parameters, in field order.
    pub open spec fn query(self) -> Pairs {
        opt_param("shop"@, self.shop)
            + opt_param(
            "type"@,
            match self.type_field {
                Some(v) => Some(v.text()),
                None => None,
            },
        )
    }

    /// Every field that the endpoint needs is set.
    pub open spec fn complete(self) -> bool {
        self.shop is Some
    }
}

/// Maps the shop ids of a shop to plain names, or back.
#[derive(Debug)]
pub struct IdPlainMap {
    shop: String,
    type_field: Option<MapType>,
}

impl View for IdPlainMap {
    type V = IdPlainMapModel;

    closed spec fn view(&self) -> IdPlainMapModel {
        IdPlainMapModel {
            shop: Some(self.shop@),
            type_field: self.type_field,
        }
    }
}

impl Clone for IdPlainMap {
    fn clone(&self) -> (r: Self)
        ensures
            r@ == self@,
    {
        IdPlainMap {
            shop: self.shop.clone(),
            type_field: self.type_field,
        }
    }
}

/// Collects the fields of [`IdPlainMap`] and checks them.
#[derive(Debug)]
pub struct IdPlainMapBuilder {
    shop: Option<String>,
    type_field: Option<MapType>,
}

impl View for IdPlainMapBuilder {
    type V = IdPlainMapModel;

    closed spec fn view(&self) -> IdPlainMapModel {
        IdPlainMapModel {
            shop: opt_view(self.shop),
            type_field: self.type_field,
        }
    }
}

impl Clone for IdPlainMapBuilder {
    fn clone(&self) -> (r: Self)
        ensures
            r@ == self@,
    {
        IdPlainMapBuilder {
            shop: copy_opt(&self.shop),
            type_field: self.type_field,
        }
    }
}

impl IdPlainMap {
    /// A builder with no field set.
    pub fn builder() -> (r: IdPlainMapBuilder)
        ensures
            r@ == (IdPlainMapModel { shop: None, type_field: None }),
    {
        IdPlainMapBuilder {
            shop: None,
            type_field: None,
        }
    }
}

impl IdPlainMapBuilder {
    /// Sets `shop`.
    pub fn shop(&mut self, value: &str) -> (r: &mut Self)
        ensures
            r@ == (IdPlainMapModel { shop: Some(value@), ..old(self)@ }),
            *final(self) == *final(r),
    {
        self.shop = Some(value.to_string());
        self
    }

    /// Sets `type_field`.
    pub fn type_field(&mut self, value: MapType) -> (r: &mut Self)
        ensures
            r@ == (IdPlainMapModel { type_field: Some(value), ..old(self)@ }),
            *final(self) == *final(r),
    {
        self.type_field = Some(value);
        self
    }

    /// The endpoint, when every needed field is set and the fields go together.
    pub fn build(&self) -> (r: Result<IdPlainMap, BuilderError>)
        ensures
            r is Ok <==> self@.complete(),
            r is Ok ==> r->Ok_0@ == self@,
            self@.shop is None ==> r is Err && r->Err_0 is UninitializedField
                && r->Err_0->UninitializedField_0@ == "shop"@,
    {
        let shop = match &self.shop {
            Some(v) => v.clone(),
            None => {
                return Err(BuilderError::UninitializedField("shop"));
            },
        };
        Ok(IdPlainMap {
            shop,
            type_field: self.type_field,
        })
    }
}

impl Endpoint for IdPlainMap {
    open spec fn spec_method(&self) -> Method {
        Method::Get
    }

    open spec fn spec_path(&self) -> Seq<char> {
        "v01/game/map/"@
    }

    open spec fn spec_query(&self) -> Pairs {
        self@.query()
    }

    open spec fn spec_requires_api_key(&self) -> bool {
        true
    }

    fn method(&self) -> (r: Method) {
        Method::Get
    }

    fn endpoint(&self) -> (r: &'static str) {
        "v01/game/map/"
    }

    fn query_pairs(&self) -> (r: Vec<(String, String)>) {
        let mut pairs: Vec<(String, String)> = Vec::new();
        push_param(&mut pairs, "shop", self.shop.as_str());
        match &self.type_field {
            Some(v) => push_param(&mut pairs, "type", v.as_str()),
            None => {},
        }
        assert(pairs_view(pairs@) =~= self@.query());
        pairs
    }

    fn body(&self) -> (r: Result<Option<(&'static str, Vec<u8>)>, BodyError>) {
        Ok(None)
    }

    fn requires_api_key(&self) -> (r: bool) {
        true
    }

    fn requires_oauth_token(&self) -> (r: bool) {
        false
    }
}

/// The fields of [`Prices`] and of
/// [`PricesBuilder`]; a field that was not set is `None` or empty.
pub struct PricesModel {
    pub plains: Seq<Seq<char>>,
    pub region: Option<Seq<char>>,
    pub country: Option<Seq<char>>,
    pub shops: Seq<Seq<char>>,
    pub exclude: Seq<Seq<char>>,
    pub added: Option<Seq<char>>,
}

impl PricesModel {
    /// The query parameters, in field order.
    pub open spec fn query(self) -> Pairs {
        list_param("plains"@, self.plains)
            + opt_param("region"@, self.region)
            + opt_param("country"@, self.country)
            + list_param("shops"@, self.shops)
            + list_param("exclude"@, self.exclude)
            + opt_param("added"@, self.added)
    }

    /// Every field that the endpoint needs is set.
    pub open spec fn complete(self) -> bool {
        self.plains.len() > 0
    }
}

/// The current prices of games.
#[derive(Debug)]
pub struct Prices {
    plains: ValueSet,
    region: Option<String>,
    country: Option<String>,
    shops: ValueSet,
    exclude: ValueSet,
    added: Option<String>,
}

impl View for Prices {
    type V = PricesModel;

    closed spec fn view(&self) -> PricesModel {
        PricesModel {
            plains: self.plains@,
            region: opt_view(self.region),
            country: opt_view(self.country),
            shops: self.shops@,
            exclude: self.exclude@,
            added: opt_view(self.added),
        }
    }
}

impl Prices {
    /// Every value set it holds is in strictly increasing order.
    pub fn lemma_sorted(&self)
        ensures
            strictly_sorted(self@.plains),
            strictly_sorted(self@.shops),
            strictly_sorted(self@.exclude),
    {
        self.plains.lemma_sorted();
        self.shops.lemma_sorted();
        self.exclude.lemma_sorted();
    }
}

impl Clone for Prices {
    fn clone(&self) -> (r: Self)
        ensures
            r@ == self@,
    {
        Prices {
            plains: self.plains.clone(),
            region: copy_opt(&self.region),
            country: copy_opt(&self.country),
            shops: self.shops.clone(),
            exclude: self.exclude.clone(),
            added: copy_opt(&self.added),
        }
    }
}

/// Collects the fields of [`Prices`] and checks them.
#[derive(Debug)]
pub struct PricesBuilder {
    plains: ValueSet,
    region: Option<String>,
    country: Option<String>,
    shops: ValueSet,
    exclude: ValueSet,
    added: Option<String>,
}

impl View for PricesBuilder {
    type V = PricesModel;

    closed spec fn view(&self) -> PricesModel {
        PricesModel {
            plains: self.plains@,
            region: opt_view(self.region),
            country: opt_view(self.country),
            shops: self.shops@,
            exclude: self.exclude@,
            added: opt_view(self.added),
        }
    }
}

impl PricesBuilder {
    /// Every value set it holds is in strictly increasing order.
    pub fn lemma_sorted(&self)
        ensures
            strictly_sorted(self@.plains),
            strictly_sorted(self@.shops),
            strictly_sorted(self@.exclude),
    {
        self.plains.lemma_sorted();
        self.shops.lemma_sorted();
        self.exclude.lemma_sorted();
    }
}

impl Clone for PricesBuilder {
    fn clone(&self) -> (r: Self)
        ensures
            r@ == self@,
    {
        PricesBuilder {
            plains: self.plains.clone(),
            region: copy_opt(&self.region),
            country: copy_opt(&self.country),
            shops: self.shops.clone(),
            exclude: self.exclude.clone(),
            added: copy_opt(&self.added),
        }
    }
}

impl Prices {
    /// A builder with no field set.
    pub fn builder() -> (r: PricesBuilder)
        ensures
            r@ == (PricesModel {
                plains: seq![],
                region: None,
                country: None,
                shops: seq![],
                exclude: seq![],
                added: None,
            }),
    {
        PricesBuilder {
            plains: ValueSet::new(),
            region: None,
            country: None,
            shops: ValueSet::new(),
            exclude: ValueSet::new(),
            added: None,
        }
    }
}

impl PricesBuilder {
    /// Adds one value to `plains`.
    pub fn plain(&mut self, plain: &str) -> (r: &mut Self)
        ensures
            r@.plains.to_set() == old(self)@.plains.to_set().insert(plain@),
            strictly_sorted(r@.plains),
            r@ == (PricesModel { plains: r@.plains, ..old(self)@ }),
            *final(self) == *final(r),
    {
        self.plains.insert(plain);
        self
    }

    /// Adds several values to `plains`.
    pub fn plains(&mut self, plains: &[&str]) -> (r: &mut Self)
        ensures
            r@.plains.to_set() == old(self)@.plains.to_set().union(
                strs_view(plains@).to_set(),
            ),
            strictly_sorted(r@.plains),
            r@ == (PricesModel { plains: r@.plains, ..old(self)@ }),
            *final(self) == *final(r),
    {
        let ghost added = strs_view(plains@);
        let mut i: usize = 0;
        assert(added.take(0).to_set() =~= Set::<Seq<char>>::empty());
        while i < plains.len()
            invariant
                i <= added.len(),
                added == strs_view(plains@),
                self@.plains.to_set() == old(self)@.plains.to_set().union(
                    added.take(i as int).to_set(),
                ),
                self@ == (PricesModel { plains: self@.plains, ..old(self)@ }),
            decreases added.len() - i,
        {
            proof {
                lemma_take_one_more(added, i as int);
            }
            self.plains.insert(plains[i]);
            i = i + 1;
        }
        assert(added.take(i as int) =~= added);
        self.plains.lemma_sorted();
        self
    }

    /// Sets `region`.
    pub fn region(&mut self, value: &str) -> (r: &mut Self)
        ensures
            r@ == (PricesModel { region: Some(value@), ..old(self)@ }),
            *final(self) == *final(r),
    {
        self.region = Some(value.to_string());
        self
    }

    /// Sets `country`.
    pub fn country(&mut self, value: &str) -> (r: &mut Self)
        ensures
            r@ == (PricesModel { country: Some(value@), ..old(self)@ }),
            *final(self) == *final(r),
    {
        self.country = Some(value.to_string());
        self
    }

    /// Adds one value to `shops`.
    pub fn shop(&mut self, shop: &str) -> (r: &mut Self)
        ensures
            r@.shops.to_set() == old(self)@.shops.to_set().insert(shop@),
            strictly_sorted(r@.shops),
            r@ == (PricesModel { shops: r@.shops, ..old(self)@ }),
            *final(self) == *final(r),
    {
        self.shops.insert(shop);
        self
    }

    /// Adds several values to `shops`.
    pub fn shops(&mut self, shops: &[&str]) -> (r: &mut Self)
        ensures
            r@.shops.to_set() == old(self)@.shops.to_set().union(
                strs_view(shops@).to_set(),
            ),
            strictly_sorted(r@.shops),
            r@ == (PricesModel { shops: r@.shops, ..old(self)@ }),
            *final(self) == *final(r),
    {
        let ghost added = strs_view(shops@);
        let mut i: usize = 0;
        assert(added.take(0).to_set() =~= Set::<Seq<char>>::empty());
        while i < shops.len()
            invariant
                i <= added.len(),
                added == strs_view(shops@),
                self@.shops.to_set() == old(self)@.shops.to_set().union(
                    added.take(i as int).to_set(),
                ),
                self@ == (PricesModel { shops: self@.shops, ..old(self)@ }),
            decreases added.len() - i,
        {
            proof {
                lemma_take_one_more(added, i as int);
            }
            self.shops.insert(shops[i]);
            i = i + 1;
        }
        assert(added.take(i as int) =~= added);
        self.shops.lemma_sorted();
        self
    }

    /// Adds one value to `exclude`.
    pub fn exclude(&mut self, exclude: &str) -> (r: &mut Self)
        ensures
            r@.exclude.to_set() == old(self)@.exclude.to_set().insert(exclude@),
            strictly_sorted(r@.exclude),
            r@ == (PricesModel { exclude: r@.exclude, ..old(self)@ }),
            *final(self) == *final(r),
    {
        self.exclude.insert(exclude);
        self
    }

    /// Adds several values to `exclude`.
    pub fn excludes(&mut self, excludes: &[&str]) -> (r: &mut Self)
        ensures
            r@.exclude.to_set() == old(self)@.exclude.to_set().union(
                strs_view(excludes@).to_set(),
            ),
            strictly_sorted(r@.exclude),
            r@ == (PricesModel { exclude: r@.exclude, ..old(self)@ }),
            *final(self) == *final(r),
    {
        let ghost added = strs_view(excludes@);
        let mut i: usize = 0;
        assert(added.take(0).to_set() =~= Set::<Seq<char>>::empty());
        while i < excludes.len()
            invariant
                i <= added.len(),
                added == strs_view(excludes@),
                self@.exclude.to_set() == old(self)@.exclude.to_set().union(
                    added.take(i as int).to_set(),
                ),
                self@ == (PricesModel { exclude: self@.exclude, ..old(self)@ }),
            decreases added.len() - i,
        {
            proof {
                lemma_take_one_more(added, i as int);
            }
            self.exclude.insert(excludes[i]);
            i = i + 1;
        }
        assert(added.take(i as int) =~= added);
        self.exclude.lemma_sorted();
        self
    }

    /// Sets `added`.
    pub fn added(&mut self, value: &str) -> (r: &mut Self)
        ensures
            r@ == (PricesModel { added: Some(value@), ..old(self)@ }),
            *final(self) == *final(r),
    {
        self.added = Some(value.to_string());
        self
    }

    /// The endpoint, when every needed field is set and the fields go together.
    pub fn build(&self) -> (r: Result<Prices, BuilderError>)
        ensures
            r is Ok <==> self@.complete(),
            r is Ok ==> r->Ok_0@ == self@,
            self@.plains.len() == 0 ==> r is Err && r->Err_0 is UninitializedField
                && r->Err_0->UninitializedField_0@ == "plains"@,
    {
        if self.plains.is_empty() {
            return Err(BuilderError::UninitializedField("plains"));
        }
        Ok(Prices {
            plains: self.plains.clone(),
            region: copy_opt(&self.region),
            country: copy_opt(&self.country),
            shops: self.shops.clone(),
            exclude: self.exclude.clone(),
            added: copy_opt(&self.added),
        })
    }
}

impl Endpoint for Prices {
    open spec fn spec_method(&self) -> Method {
        Method::Get
    }

    open spec fn spec_path(&self) -> Seq<char> {
        "v01/game/prices/"@
    }

    open spec fn spec_query(&self) -> Pairs {
        self@.query()
    }

    open spec fn spec_requires_api_key(&self) -> bool {
        true
    }

    fn method(&self) -> (r: Method) {
        Method::Get
    }

    fn endpoint(&self) -> (r: &'static str) {
        "v01/game/prices/"
    }

    fn query_pairs(&self) -> (r: Vec<(String, String)>) {
        let mut pairs: Vec<(String, String)> = Vec::new();
        serialize_as_csv(&mut pairs, "plains", &self.plains);
        push_opt(&mut pairs, "region", &self.region);
        push_opt(&mut pairs, "country", &self.country);
        serialize_as_csv(&mut pairs, "shops", &self.shops);
        serialize_as_csv(&mut pairs, "exclude", &self.exclude);
        push_opt(&mut pairs, "added", &self.added);
        assert(pairs_view(pairs@) =~= self@.query());
        pairs
    }

    fn body(&self) -> (r: Result<Option<(&'static str, Vec<u8>)>, BodyError>) {
        Ok(None)
    }

    fn requires_api_key(&self) -> (r: bool) {
        true
    }

    fn requires_oauth_token(&self) -> (r: bool) {
        false
    }
}

/// The fields of [`HistoricalLow`] and of
/// [`HistoricalLowBuilder`]; a field that was not set is `None` or empty.
pub struct HistoricalLowModel {
    pub plains: Seq<Seq<char>>,
    pub region: Option<Seq<char>>,
    pub country: Option<Seq<char>>,
    pub shops: Seq<Seq<char>>,
    pub exclude: Seq<Seq<char>>,
    pub since: Option<u64>,
    pub until: Option<u64>,
    pub new: Option<bool>,
}

impl HistoricalLowModel {
    /// The query parameters, in field order.
    pub open spec fn query(self) -> Pairs {
        list_param("plains"@, self.plains)
            + opt_param("region"@, self.region)
            + opt_param("country"@, self.country)
            + list_param("shops"@, self.shops)
            + list_param("exclude"@, self.exclude)
            + opt_param("since"@, opt_u64_text(self.since))
            + opt_param("until"@, opt_u64_text(self.until))
            + opt_param("new"@, opt_bool_text(self.new))
    }

    /// Every field that the endpoint needs is set.
    pub open spec fn complete(self) -> bool {
        self.plains.len() > 0
    }
}

/// The lowest prices games ever had.
#[derive(Debug)]
pub struct HistoricalLow {
    plains: ValueSet,
    region: Option<String>,
    country: Option<String>,
    shops: ValueSet,
    exclude: ValueSet,
    since: Option<u64>,
    until: Option<u64>,
    new: Option<bool>,
}

impl View for HistoricalLow {
    type V = HistoricalLowModel;

    closed spec fn view(&self) -> HistoricalLowModel {
        HistoricalLowModel {
            plains: self.plains@,
            region: opt_view(self.region),
            country: opt_view(self.country),
            shops: self.shops@,
            exclude: self.exclude@,
            since: self.since,
            until: self.until,
            new: self.new,
        }
    }
}

impl HistoricalLow {
    /// Every value set it holds is in strictly increasing order.
    pub fn lemma_sorted(&self)
        ensures
            strictly_sorted(self@.plains),
            strictly_sorted(self@.shops),
            strictly_sorted(self@.exclude),
    {
        self.plains.lemma_sorted();
        self.shops.lemma_sorted();
        self.exclude.lemma_sorted();
    }
}

impl Clone for HistoricalLow {
    fn clone(&self) -> (r: Self)
        ensures
            r@ == self@,
    {
        HistoricalLow {
            plains: self.plains.clone(),
            region: copy_opt(&self.region),
            country: copy_opt(&self.country),
            shops: self.shops.clone(),
            exclude: self.exclude.clone(),
            since: self.since,
            until: self.until,
            new: self.new,
        }
    }
}

/// Collects the fields of [`HistoricalLow`] and checks them.
#[derive(Debug)]
pub struct HistoricalLowBuilder {
    plains: ValueSet,
    region: Option<String>,
    country: Option<String>,
    shops: ValueSet,
    exclude: ValueSet,
    since: Option<u64>,
    until: Option<u64>,
    new: Option<bool>,
}

impl View for HistoricalLowBuilder {
    type V = HistoricalLowModel;

    closed spec fn view(&self) -> HistoricalLowModel {
        HistoricalLowModel {
            plains: self.plains@,
            region: opt_view(self.region),
            country: opt_view(self.country),
            shops: self.shops@,
            exclude: self.exclude@,
            since: self.since,
            until: self.until,
            new: self.new,
        }
    }
}

impl HistoricalLowBuilder {
    /// Every value set it holds is in strictly increasing order.
    pub fn lemma_sorted(&self)
        ensures
            strictly_sorted(self@.plains),
            strictly_sorted(self@.shops),
            strictly_sorted(self@.exclude),
    {
        self.plains.lemma_sorted();
        self.shops.lemma_sorted();
        self.exclude.lemma_sorted();
    }
}

impl Clone for HistoricalLowBuilder {
    fn clone(&self) -> (r: Self)
        ensures
            r@ == self@,
    {
        HistoricalLowBuilder {
            plains: self.plains.clone(),
            region: copy_opt(&self.region),
            country: copy_opt(&self.country),
            shops: self.shops.clone(),
            exclude: self.exclude.clone(),
            since: self.since,
            until: self.until,
            new: self.new,
        }
    }
}

impl HistoricalLow {
    /// A builder with no field set.
    pub fn builder() -> (r: HistoricalLowBuilder)
        ensures
            r@ == (HistoricalLowModel {
                plains: seq![],
                region: None,
                country: None,
                shops: seq![],
                exclude: seq![],
                since: None,
                until: None,
                new: None,
            }),
    {
        HistoricalLowBuilder {
            plains: ValueSet::new(),
            region: None,
            country: None,
            shops: ValueSet::new(),
            exclude: ValueSet::new(),
            since: None,
            until: None,
            new: None,
        }
    }
}

impl HistoricalLowBuilder {
    /// Adds one value to `plains`.
    pub fn plain(&mut self, plain: &str) -> (r: &mut Self)
        ensures
            r@.plains.to_set() == old(self)@.plains.to_set().insert(plain@),
            strictly_sorted(r@.plains),
            r@ == (HistoricalLowModel { plains: r@.plains, ..old(self)@ }),
            *final(self) == *final(r),
    {
        self.plains.insert(plain);
        self
    }

    /// Adds several values to `plains`.
    pub fn plains(&mut self, plains: &[&str]) -> (r: &mut Self)
        ensures
            r@.plains.to_set() == old(self)@.plains.to_set().union(
                strs_view(plains@).to_set(),
            ),
            strictly_sorted(r@.plains),
            r@ == (HistoricalLowModel { plains: r@.plains, ..old(self)@ }),
            *final(self) == *final(r),
    {
        let ghost added = strs_view(plains@);
        let mut i: usize = 0;
        assert(added.take(0).to_set() =~= Set::<Seq<char>>::empty());
        while i < plains.len()
            invariant
                i <= added.len(),
                added == strs_view(plains@),
                self@.plains.to_set() == old(self)@.plains.to_set().union(
                    added.take(i as int).to_set(),
                ),
                self@ == (HistoricalLowModel { plains: self@.plains, ..old(self)@ }),
            decreases added.len() - i,
        {
            proof {
                lemma_take_one_more(added, i as int);
            }
            self.plains.insert(plains[i]);
            i = i + 1;
        }
        assert(added.take(i as int) =~= added);
        self.plains.lemma_sorted();
        self
    }

    /// Sets `region`.
    pub fn region(&mut self, value: &str) -> (r: &mut Self)
        ensures
            r@ == (HistoricalLowModel { region: Some(value@), ..old(self)@ }),
            *final(self) == *final(r),
    {
        self.region = Some(value.to_string());
        self
    }

    /// Sets `country`.
    pub fn country(&mut self, value: &str) -> (r: &mut Self)
        ensures
            r@ == (HistoricalLowModel { country: Some(value@), ..old(self)@ }),
            *final(self) == *final(r),
    {
        self.country = Some(value.to_string());
        self
    }

    /// Adds one value to `shops`.
    pub fn shop(&mut self, shop: &str) -> (r: &mut Self)
        ensures
            r@.shops.to_set() == old(self)@.shops.to_set().insert(shop@),
            strictly_sorted(r@.shops),
            r@ == (HistoricalLowModel { shops: r@.shops, ..old(self)@ }),
            *final(self) == *final(r),
    {
        self.shops.insert(shop);
        self
    }

    /// Adds several values to `shops`.
    pub fn shops(&mut self, shops: &[&str]) -> (r: &mut Self)
        ensures
            r@.shops.to_set() == old(self)@.shops.to_set().union(
                strs_view(shops@).to_set(),
            ),
            strictly_sorted(r@.shops),
            r@ == (HistoricalLowModel { shops: r@.shops, ..old(self)@ }),
            *final(self) == *final(r),
    {
        let ghost added = strs_view(shops@);
        let mut i: usize = 0;
        assert(added.take(0).to_set() =~= Set::<Seq<char>>::empty());
        while i < shops.len()
            invariant
                i <= added.len(),
                added == strs_view(shops@),
                self@.shops.to_set() == old(self)@.shops.to_set().union(
                    added.take(i as int).to_set(),
                ),
                self@ == (HistoricalLowModel { shops: self@.shops, ..old(self)@ }),
            decreases added.len() - i,
        {
            proof {
                lemma_take_one_more(added, i as int);
            }
            self.shops.insert(shops[i]);
            i = i + 1;
        }
        assert(added.take(i as int) =~= added);
        self.shops.lemma_sorted();
        self
    }

    /// Adds one value to `exclude`.
    pub fn exclude(&mut self, exclude: &str) -> (r: &mut Self)
        ensures
            r@.exclude.to_set() == old(self)@.exclude.to_set().insert(exclude@),
            strictly_sorted(r@.exclude),
            r@ == (HistoricalLowModel { exclude: r@.exclude, ..old(self)@ }),
            *final(self) == *final(r),
    {
        self.exclude.insert(exclude);
        self
    }

    /// Adds several values to `exclude`.
    pub fn excludes(&mut self, excludes: &[&str]) -> (r: &mut Self)
        ensures
            r@.exclude.to_set() == old(self)@.exclude.to_set().union(
                strs_view(excludes@).to_set(),
            ),
            strictly_sorted(r@.exclude),
            r@ == (HistoricalLowModel { exclude: r@.exclude, ..old(self)@ }),
            *final(self) == *final(r),
    {
        let ghost added = strs_view(excludes@);
        let mut i: usize = 0;
        assert(added.take(0).to_set() =~= Set::<Seq<char>>::empty());
        while i < excludes.len()
            invariant
                i <= added.len(),
                added == strs_view(excludes@),
                self@.exclude.to_set() == old(self)@.exclude.to_set().union(
                    added.take(i as int).to_set(),
                ),
                self@ == (HistoricalLowModel { exclude: self@.exclude, ..old(self)@ }),
            decreases added.len() - i,
        {
            proof {
                lemma_take_one_more(added, i as int);
            }
            self.exclude.insert(excludes[i]);
            i = i + 1;
        }
        assert(added.take(i as int) =~= added);
        self.exclude.lemma_sorted();
        self
    }

    /// Sets `since`.
    pub fn since(&mut self, value: u64) -> (r: &mut Self)
        ensures
            r@ == (HistoricalLowModel { since: Some(value), ..old(self)@ }),
            *final(self) == *final(r),
    {
        self.since = Some(value);
        self
    }

    /// Sets `until`.
    pub fn until(&mut self, value: u64) -> (r: &mut Self)
        ensures
            r@ == (HistoricalLowModel { until: Some(value), ..old(self)@ }),
            *final(self) == *final(r),
    {
        self.until = Some(value);
        self
    }

    /// Sets `new`.
    pub fn new(&mut self, value: bool) -> (r: &mut Self)
        ensures
            r@ == (HistoricalLowModel { new: Some(value), ..old(self)@ }),
            *final(self) == *final(r),
    {
        self.new = Some(value);
        self
    }

    /// The endpoint, when every needed field is set and the fields go together.
    pub fn build(&self) -> (r: Result<HistoricalLow, BuilderError>)
        ensures
            r is Ok <==> self@.complete(),
            r is Ok ==> r->Ok_0@ == self@,
            self@.plains.len() == 0 ==> r is Err && r->Err_0 is UninitializedField
                && r->Err_0->UninitializedField_0@ == "plains"@,
    {
        if self.plains.is_empty() {
            return Err(BuilderError::UninitializedField("plains"));
        }
        Ok(HistoricalLow {
            plains: self.plains.clone(),
            region: copy_opt(&self.region),
            country: copy_opt(&self.country),
            shops: self.shops.clone(),
            exclude: self.exclude.clone(),
            since: self.since,
            until: self.until,
            new: self.new,
        })
    }
}

impl Endpoint for HistoricalLow {
    open spec fn spec_method(&self) -> Method {
        Method::Get
    }

    open spec fn spec_path(&self) -> Seq<char> {
        "v01/game/lowest/"@
    }

    open spec fn spec_query(&self) -> Pairs {
        self@.query()
    }

    open spec fn spec_requires_api_key(&self) -> bool {
        true
    }

    fn method(&self) -> (r: Method) {
        Method::Get
    }

    fn endpoint(&self) -> (r: &'static str) {
        "v01/game/lowest/"
    }

    fn query_pairs(&self) -> (r: Vec<(String, String)>) {
        let mut pairs: Vec<(String, String)> = Vec::new();
        serialize_as_csv(&mut pairs, "plains", &self.plains);
        push_opt(&mut pairs, "region", &self.region);
        push_opt(&mut pairs, "country", &self.country);
        serialize_as_csv(&mut pairs, "shops", &self.shops);
        serialize_as_csv(&mut pairs, "exclude", &self.exclude);
        push_opt_u64(&mut pairs, "since", self.since);
        push_opt_u64(&mut pairs, "until", self.until);
        push_opt_bool(&mut pairs, "new", self.new);
        assert(pairs_view(pairs@) =~= self@.query());
        pairs
    }

    fn body(&self) -> (r: Result<Option<(&'static str, Vec<u8>)>, BodyError>) {
        Ok(None)
    }

    fn requires_api_key(&self) -> (r: bool) {
        true
    }

    fn requires_oauth_token(&self) -> (r: bool) {
        false
    }
}

/// The fields of [`StoreLow`] and of
/// [`StoreLowBuilder`]; a field that was not set is `None` or empty.
pub struct StoreLowModel {
    pub plains: Seq<Seq<char>>,
    pub region: Option<Seq<char>>,
    pub country: Option<Seq<char>>,
    pub shops: Seq<Seq<char>>,
    pub exclude: Seq<Seq<char>>,
}

impl StoreLowModel {
    /// The query parameters, in field order.
    pub open spec fn query(self) -> Pairs {
        list_param("plains"@, self.plains)
            + opt_param("region"@, self.region)
            + opt_param("country"@, self.country)
            + list_param("shops"@, self.shops)
            + list_param("exclude"@, self.exclude)
    }

    /// Every field that the endpoint needs is set.
    pub open spec fn complete(self) -> bool {
        self.plains.len() > 0
    }
}

/// The lowest price of games in each shop.
#[derive(Debug)]
pub struct StoreLow {
    plains: ValueSet,
    region: Option<String>,
    country: Option<String>,
    shops: ValueSet,
    exclude: ValueSet,
}

impl View for StoreLow {
    type V = StoreLowModel;

    closed spec fn view(&self) -> StoreLowModel {
        StoreLowModel {
            plains: self.plains@,
            region: opt_view(self.region),
            country: opt_view(self.country),
            shops: self.shops@,
            exclude: self.exclude@,
        }
    }
}

impl StoreLow {
    /// Every value set it holds is in strictly increasing order.
    pub fn lemma_sorted(&self)
        ensures
            strictly_sorted(self@.plains),
            strictly_sorted(self@.shops),
            strictly_sorted(self@.exclude),
    {
        self.plains.lemma_sorted();
        self.shops.lemma_sorted();
        self.exclude.lemma_sorted();
    }
}

impl Clone for StoreLow {
    fn clone(&self) -> (r: Self)
        ensures
            r@ == self@,
    {
        StoreLow {
            plains: self.plains.clone(),
            region: copy_opt(&self.region),
            country: copy_opt(&self.country),
            shops: self.shops.clone(),
            exclude: self.exclude.clone(),
        }
    }
}

/// Collects the fields of [`StoreLow`] and checks them.
#[derive(Debug)]
pub struct StoreLowBuilder {
    plains: ValueSet,
    region: Option<String>,
    country: Option<String>,
    shops: ValueSet,
    exclude: ValueSet,
}

impl View for StoreLowBuilder {
    type V = StoreLowModel;

    closed spec fn view(&self) -> StoreLowModel {
        StoreLowModel {
            plains: self.plains@,
            region: opt_view(self.region),
            country: opt_view(self.country),
            shops: self.shops@,
            exclude: self.exclude@,
        }
    }
}

impl StoreLowBuilder {
    /// Every value set it holds is in strictly increasing order.
    pub fn lemma_sorted(&self)
        ensures
            strictly_sorted(self@.plains),
            strictly_sorted(self@.shops),
            strictly_sorted(self@.exclude),
    {
        self.plains.lemma_sorted();
        self.shops.lemma_sorted();
        self.exclude.lemma_sorted();
    }
}

impl Clone for StoreLowBuilder {
    fn clone(&self) -> (r: Self)
        ensures
            r@ == self@,
    {
        StoreLowBuilder {
            plains: self.plains.clone(),
            region: copy_opt(&self.region),
            country: copy_opt(&self.country),
            shops: self.shops.clone(),
            exclude: self.exclude.clone(),
        }
    }
}

impl StoreLow {
    /// A builder with no field set.
    pub fn builder() -> (r: StoreLowBuilder)
        ensures
            r@ == (StoreLowModel {
                plains: seq![],
                region: None,
                country: None,
                shops: seq![],
                exclude: seq![],
            }),
    {
        StoreLowBuilder {
            plains: ValueSet::new(),
            region: None,
            country: None,
            shops: ValueSet::new(),
            exclude: ValueSet::new(),
        }
    }
}

impl StoreLowBuilder {
    /// Adds one value to `plains`.
    pub fn plain(&mut self, plain: &str) -> (r: &mut Self)
        ensures
            r@.plains.to_set() == old(self)@.plains.to_set().insert(plain@),
            strictly_sorted(r@.plains),
            r@ == (StoreLowModel { plains: r@.plains, ..old(self)@ }),
            *final(self) == *final(r),
    {
        self.plains.insert(plain);
        self
    }

    /// Adds several values to `plains`.
    pub fn plains(&mut self, plains: &[&str]) -> (r: &mut Self)
        ensures
            r@.plains.to_set() == old(self)@.plains.to_set().union(
                strs_view(plains@).to_set(),
            ),
            strictly_sorted(r@.plains),
            r@ == (StoreLowModel { plains: r@.plains, ..old(self)@ }),
            *final(self) == *final(r),
    {
        let ghost added = strs_view(plains@);
        let mut i: usize = 0;
        assert(added.take(0).to_set() =~= Set::<Seq<char>>::empty());
        while i < plains.len()
            invariant
                i <= added.len(),
                added == strs_view(plains@),
                self@.plains.to_set() == old(self)@.plains.to_set().union(
                    added.take(i as int).to_set(),
                ),
                self@ == (StoreLowModel { plains: self@.plains, ..old(self)@ }),
            decreases added.len() - i,
        {
            proof {
                lemma_take_one_more(added, i as int);
            }
            self.plains.insert(plains[i]);
            i = i + 1;
        }
        assert(added.take(i as int) =~= added);
        self.plains.lemma_sorted();
        self
    }

    /// Sets `region`.
    pub fn region(&mut self, value: &str) -> (r: &mut Self)
        ensures
            r@ == (StoreLowModel { region: Some(value@), ..old(self)@ }),
            *final(self) == *final(r),
    {
        self.region = Some(value.to_string());
        self
    }

    /// Sets `country`.
    pub fn country(&mut self, value: &str) -> (r: &mut Self)
        ensures
            r@ == (StoreLowModel { country: Some(value@), ..old(self)@ }),
            *final(self) == *final(r),
    {
        self.country = Some(value.to_string());
        self
    }

    /// Adds one value to `shops`.
    pub fn shop(&mut self, shop: &str) -> (r: &mut Self)
        ensures
            r@.shops.to_set() == old(self)@.shops.to_set().insert(shop@),
            strictly_sorted(r@.shops),
            r@ == (StoreLowModel { shops: r@.shops, ..old(self)@ }),
            *final(self) == *final(r),
    {
        self.shops.insert(shop);
        self
    }

    /// Adds several values to `shops`.
    pub fn shops(&mut self, shops: &[&str]) -> (r: &mut Self)
        ensures
            r@.shops.to_set() == old(self)@.shops.to_set().union(
                strs_view(shops@).to_set(),
            ),
            strictly_sorted(r@.shops),
            r@ == (StoreLowModel { shops: r@.shops, ..old(self)@ }),
            *final(self) == *final(r),
    {
        let ghost added = strs_view(shops@);
        let mut i: usize = 0;
        assert(added.take(0).to_set() =~= Set::<Seq<char>>::empty());
        while i < shops.len()
            invariant
                i <= added.len(),
                added == strs_view(shops@),
                self@.shops.to_set() == old(self)@.shops.to_set().union(
                    added.take(i as int).to_set(),
                ),
                self@ == (StoreLowModel { shops: self@.shops, ..old(self)@ }),
            decreases added.len() - i,
        {
            proof {
                lemma_take_one_more(added, i as int);
            }
            self.shops.insert(shops[i]);
            i = i + 1;
        }
        assert(added.take(i as int) =~= added);
        self.shops.lemma_sorted();
        self
    }

    /// Adds one value to `exclude`.
    pub fn exclude(&mut self, exclude: &str) -> (r: &mut Self)
        ensures
            r@.exclude.to_set() == old(self)@.exclude.to_set().insert(exclude@),
            strictly_sorted(r@.exclude),
            r@ == (StoreLowModel { exclude: r@.exclude, ..old(self)@ }),
            *final(self) == *final(r),
    {
        self.exclude.insert(exclude);
        self
    }

    /// Adds several values to `exclude`.
    pub fn excludes(&mut self, excludes: &[&str]) -> (r: &mut Self)
        ensures
            r@.exclude.to_set() == old(self)@.exclude.to_set().union(
                strs_view(excludes@).to_set(),
            ),
            strictly_sorted(r@.exclude),
            r@ == (StoreLowModel { exclude: r@.exclude, ..old(self)@ }),
            *final(self) == *final(r),
    {
        let ghost added = strs_view(excludes@);
        let mut i: usize = 0;
        assert(added.take(0).to_set() =~= Set::<Seq<char>>::empty());
        while i < excludes.len()
            invariant
                i <= added.len(),
                added == strs_view(excludes@),
                self@.exclude.to_set() == old(self)@.exclude.to_set().union(
                    added.take(i as int).to_set(),
                ),
                self@ == (StoreLowModel { exclude: self@.exclude, ..old(self)@ }),
            decreases added.len() - i,
        {
            proof {
                lemma_take_one_more(added, i as int);
            }
            self.exclude.insert(excludes[i]);
            i = i + 1;
        }
        assert(added.take(i as int) =~= added);
        self.exclude.lemma_sorted();
        self
    }

    /// The endpoint, when every needed field is set and the fields go together.
    pub fn build(&self) -> (r: Result<StoreLow, BuilderError>)
        ensures
            r is Ok <==> self@.complete(),
            r is Ok ==> r->Ok_0@ == self@,
            self@.plains.len() == 0 ==> r is Err && r->Err_0 is UninitializedField
                && r->Err_0->UninitializedField_0@ == "plains"@,
    {
        if self.plains.is_empty() {
            return Err(BuilderError::UninitializedField("plains"));
        }
        Ok(StoreLow {
            plains: self.plains.clone(),
            region: copy_opt(&self.region),
            country: copy_opt(&self.country),
            shops: self.shops.clone(),
            exclude: self.exclude.clone(),
        })
    }
}

impl Endpoint for StoreLow {
    open spec fn spec_method(&self) -> Method {
        Method::Get
    }

    open spec fn spec_path(&self) -> Seq<char> {
        "v01/game/storelow/"@
    }

    open spec fn spec_query(&self) -> Pairs {
        self@.query()
    }

    open spec fn spec_requires_api_key(&self) -> bool {
        true
    }

    fn method(&self) -> (r: Method) {
        Method::Get
    }

    fn endpoint(&self) -> (r: &'static str) {
        "v01/game/storelow/"
    }

    fn query_pairs(&self) -> (r: Vec<(String, String)>) {
        let mut pairs: Vec<(String, String)> = Vec::new();
        serialize_as_csv(&mut pairs, "plains", &self.plains);
        push_opt(&mut pairs, "region", &self.region);
        push_opt(&mut pairs, "country", &self.country);
        serialize_as_csv(&mut pairs, "shops", &self.shops);
        serialize_as_csv(&mut pairs, "exclude", &self.exclude);
        assert(pairs_view(pairs@) =~= self@.query());
        pairs
    }

    fn body(&self) -> (r: Result<Option<(&'static str, Vec<u8>)>, BodyError>) {
        Ok(None)
    }

    fn requires_api_key(&self) -> (r: bool) {
        true
    }

    fn requires_oauth_token(&self) -> (r: bool) {
        false
    }
}

/// The order of bundles.
#[derive(Debug, Clone, Copy, PartialEq, Eq, PartialOrd, Ord, Hash)]
pub enum BundlesSorting {
    Expiry,
    Recent,
}

impl BundlesSorting {
    /// The text the service uses for this value.
    pub open spec fn text(self) -> Seq<char> {
        match self {
            BundlesSorting::Expiry => "expiry"@,
            BundlesSorting::Recent => "recent"@,
        }
    }

    /// The text the service uses for this value.
    pub fn as_str(&self) -> (r: &'static str)
        ensures
            r@ == self.text(),
    {
        match self {
            BundlesSorting::Expiry => "expiry",
            BundlesSorting::Recent => "recent",
        }
    }
}

/// The fields of [`Bundles`] and of
/// [`BundlesBuilder`]; a field that was not set is `None` or empty.
pub struct BundlesModel {
    pub plains: Seq<Seq<char>>,
    pub limit: Option<i64>,
    pub expired: Option<bool>,
    pub sort: Option<BundlesSorting>,
    pub region: Option<Seq<char>>,
}

impl BundlesModel {
    /// The query parameters, in field order.
    pub open spec fn query(self) -> Pairs {
        list_param("plains"@, self.plains)
            + opt_param("limit"@, opt_i64_text(self.limit))
            + opt_param("expired"@, opt_bool_text(self.expired))
            + opt_param(
            "sort"@,
            match self.sort {
                Some(v) => Some(v.text()),
                None => None,
            },
        )
            + opt_param("region"@, self.region)
    }

    /// Every field that the endpoint needs is set.
    pub open spec fn complete(self) -> bool {
        self.plains.len() > 0
    }
}

/// The bundles that hold games.
#[derive(Debug)]
pub struct Bundles {
    plains: ValueSet,
    limit: Option<i64>,
    expired: Option<bool>,
    sort: Option<BundlesSorting>,
    region: Option<String>,
}

impl View for Bundles {
    type V = BundlesModel;

    closed spec fn view(&self) -> BundlesModel {
        BundlesModel {
            plains: self.plains@,
            limit: self.limit,
            expired: self.expired,
            sort: self.sort,
            region: opt_view(self.region),
        }
    }
}

impl Bundles {
    /// Every value set it holds is in strictly increasing order.
    pub fn lemma_sorted(&self)
        ensures
            strictly_sorted(self@.plains),
    {
        self.plains.lemma_sorted();
    }
}

impl Clone for Bundles {
    fn clone(&self) -> (r: Self)
        ensures
            r@ == self@,
    {
        Bundles {
            plains: self.plains.clone(),
            limit: self.limit,
            expired: self.expired,
            sort: self.sort,
            region: copy_opt(&self.region),
        }
    }
}

/// Collects the fields of [`Bundles`] and checks them.
#[derive(Debug)]
pub struct BundlesBuilder {
    plains: ValueSet,
    limit: Option<i64>,
    expired: Option<bool>,
    sort: Option<BundlesSorting>,
    region: Option<String>,
}

impl View for BundlesBuilder {
    type V = BundlesModel;

    closed spec fn view(&self) -> BundlesModel {
        BundlesModel {
            plains: self.plains@,
            limit: self.limit,
            expired: self.expired,
            sort: self.sort,
            region: opt_view(self.region),
        }
    }
}

impl BundlesBuilder {
    /// Every value set it holds is in strictly increasing order.
    pub fn lemma_sorted(&self)
        ensures
            strictly_sorted(self@.plains),
    {
        self.plains.lemma_sorted();
    }
}

impl Clone for BundlesBuilder {
    fn clone(&self) -> (r: Self)
        ensures
            r@ == self@,
    {
        BundlesBuilder {
            plains: self.plains.clone(),
            limit: self.limit,
            expired: self.expired,
            sort: self.sort,
            region: copy_opt(&self.region),
        }
    }
}

impl Bundles {
    /// A builder with no field set.
    pub fn builder() -> (r: BundlesBuilder)
        ensures
            r@ == (BundlesModel {
                plains: seq![],
                limit: None,
                expired: None,
                sort: None,
                region: None,
            }),
    {
        BundlesBuilder {
            plains: ValueSet::new(),
            limit: None,
            expired: None,
            sort: None,
            region: None,
        }
    }
}

impl BundlesBuilder {
    /// Adds one value to `plains`.
    pub fn plain(&mut self, plain: &str) -> (r: &mut Self)
        ensures
            r@.plains.to_set() == old(self)@.plains.to_set().insert(plain@),
            strictly_sorted(r@.plains),
            r@ == (BundlesModel { plains: r@.plains, ..old(self)@ }),
            *final(self) == *final(r),
    {
        self.plains.insert(plain);
        self
    }

    /// Adds several values to `plains`.
    pub fn plains(&mut self, plains: &[&str]) -> (r: &mut Self)
        ensures
            r@.plains.to_set() == old(self)@.plains.to_set().union(
                strs_view(plains@).to_set(),
            ),
            strictly_sorted(r@.plains),
            r@ == (BundlesModel { plains: r@.plains, ..old(self)@ }),
            *final(self) == *final(r),
    {
        let ghost added = strs_view(plains@);
        let mut i: usize = 0;
        assert(added.take(0).to_set() =~= Set::<Seq<char>>::empty());
        while i < plains.len()
            invariant
                i <= added.len(),
                added == strs_view(plains@),
                self@.plains.to_set() == old(self)@.plains.to_set().union(
                    added.take(i as int).to_set(),
                ),
                self@ == (BundlesModel { plains: self@.plains, ..old(self)@ }),
            decreases added.len() - i,
        {
            proof {
                lemma_take_one_more(added, i as int);
            }
            self.plains.insert(plains[i]);
            i = i + 1;
        }
        assert(added.take(i as int) =~= added);
        self.plains.lemma_sorted();
        self
    }

    /// Sets `limit`.
    pub fn limit(&mut self, value: i64) -> (r: &mut Self)
        ensures
            r@ == (BundlesModel { limit: Some(value), ..old(self)@ }),
            *final(self) == *final(r),
    {
        self.limit = Some(value);
        self
    }

    /// Sets `expired`.
    pub fn expired(&mut self, value: bool) -> (r: &mut Self)
        ensures
            r@ == (BundlesModel { expired: Some(value), ..old(self)@ }),
            *final(self) == *final(r),
    {
        self.expired = Some(value);
        self
    }

    /// Sets `sort`.
    pub fn sort(&mut self, value: BundlesSorting) -> (r: &mut Self)
        ensures
            r@ == (BundlesModel { sort: Some(value), ..old(self)@ }),
            *final(self) == *final(r),
    {
        self.sort = Some(value);
        self
    }

    /// Sets `region`.
    pub fn region(&mut self, value: &str) -> (r: &mut Self)
        ensures
            r@ == (BundlesModel { region: Some(value@), ..old(self)@ }),
            *final(self) == *final(r),
    {
        self.region = Some(value.to_string());
        self
    }

    /// The endpoint, when every needed field is set and the fields go together.
    pub fn build(&self) -> (r: Result<Bundles, BuilderError>)
        ensures
            r is Ok <==> self@.complete(),
            r is Ok ==> r->Ok_0@ == self@,
            self@.plains.len() == 0 ==> r is Err && r->Err_0 is UninitializedField
                && r->Err_0->UninitializedField_0@ == "plains"@,
    {
        if self.plains.is_empty() {
            return Err(BuilderError::UninitializedField("plains"));
        }
        Ok(Bundles {
            plains: self.plains.clone(),
            limit: self.limit,
            expired: self.expired,
            sort: self.sort,
            region: copy_opt(&self.region),
        })
    }
}

impl Endpoint for Bundles {
    open spec fn spec_method(&self) -> Method {
        Method::Get
    }

    open spec fn spec_path(&self) -> Seq<char> {
        "v01/game/bundles/"@
    }

    open spec fn spec_query(&self) -> Pairs {
        self@.query()
    }

    open spec fn spec_requires_api_key(&self) -> bool {
        true
    }

    fn method(&self) -> (r: Method) {
        Method::Get
    }

    fn endpoint(&self) -> (r: &'static str) {
        "v01/game/bundles/"
    }

    fn query_pairs(&self) -> (r: Vec<(String, String)>) {
        let mut pairs: Vec<(String, String)> = Vec::new();
        serialize_as_csv(&mut pairs, "plains", &self.plains);
        push_opt_i64(&mut pairs, "limit", self.limit);
        push_opt_bool(&mut pairs, "expired", self.expired);
        match &self.sort {
            Some(v) => push_param(&mut pairs, "sort", v.as_str()),
            None => {},
        }
        push_opt(&mut pairs, "region", &self.region);
        assert(pairs_view(pairs@) =~= self@.query());
        pairs
    }

    fn body(&self) -> (r: Result<Option<(&'static str, Vec<u8>)>, BodyError>) {
        Ok(None)
    }

    fn requires_api_key(&self) -> (r: bool) {
        true
    }

    fn requires_oauth_token(&self) -> (r: bool) {
        false
    }
}

/// Extra data information on games can hold.
#[derive(Debug, Clone, Copy, PartialEq, Eq, PartialOrd, Ord, Hash)]
pub enum InfoOptions {
    Metacritic,
}

impl InfoOptions {
    /// The text the service uses for this value.
    pub open spec fn text(self) -> Seq<char> {
        match self {
            InfoOptions::Metacritic => "metacritic"@,
        }
    }

    /// The text the service uses for this value.
    pub fn as_str(&self) -> (r: &'static str)
        ensures
            r@ == self.text(),
    {
        match self {
            InfoOptions::Metacritic => "metacritic",
        }
    }
}

/// The fields of [`Info`] and of
/// [`InfoBuilder`]; a field that was not set is `None` or empty.
pub struct InfoModel {
    pub plains: Seq<Seq<char>>,
    pub optional: Seq<Seq<char>>,
}

impl InfoModel {
    /// The query parameters, in field order.
    pub open spec fn query(self) -> Pairs {
        list_param("plains"@, self.plains)
            + list_param("optional"@, self.optional)
    }

    /// Every field that the endpoint needs is set.
    pub open spec fn complete(self) -> bool {
        self.plains.len() > 0
    }
}

/// Information on games.
#[derive(Debug)]
pub struct Info {
    plains: ValueSet,
    optional: ValueSet,
}

impl View for Info {
    type V = InfoModel;

    closed spec fn view(&self) -> InfoModel {
        InfoModel {
            plains: self.plains@,
            optional: self.optional@,
        }
    }
}

impl Info {
    /// Every value set it holds is in strictly increasing order.
    pub fn lemma_sorted(&self)
        ensures
            strictly_sorted(self@.plains),
            strictly_sorted(self@.optional),
    {
        self.plains.lemma_sorted();
        self.optional.lemma_sorted();
    }
}

impl Clone for Info {
    fn clone(&self) -> (r: Self)
        ensures
            r@ == self@,
    {
        Info {
            plains: self.plains.clone(),
            optional: self.optional.clone(),
        }
    }
}

/// Collects the fields of [`Info`] and checks them.
#[derive(Debug)]
pub struct InfoBuilder {
    plains: ValueSet,
    optional: ValueSet,
}

impl View for InfoBuilder {
    type V = InfoModel;

    closed spec fn view(&self) -> InfoModel {
        InfoModel {
            plains: self.plains@,
            optional: self.optional@,
        }
    }
}

impl InfoBuilder {
    /// Every value set it holds is in strictly increasing order.
    pub fn lemma_sorted(&self)
        ensures
            strictly_sorted(self@.plains),
            strictly_sorted(self@.optional),
    {
        self.plains.lemma_sorted();
        self.optional.lemma_sorted();
    }
}

impl Clone for InfoBuilder {
    fn clone(&self) -> (r: Self)
        ensures
            r@ == self@,
    {
        InfoBuilder {
            plains: self.plains.clone(),
            optional: self.optional.clone(),
        }
    }
}

impl Info {
    /// A builder with no field set.
    pub fn builder() -> (r: InfoBuilder)
        ensures
            r@ == (InfoModel { plains: seq![], optional: seq![] }),
    {
        InfoBuilder {
            plains: ValueSet::new(),
            optional: ValueSet::new(),
        }
    }
}

impl InfoBuilder {
    /// Adds one value to `plains`.
    pub fn plain(&mut self, plain: &str) -> (r: &mut Self)
        ensures
            r@.plains.to_set() == old(self)@.plains.to_set().insert(plain@),
            strictly_sorted(r@.plains),
            r@ == (InfoModel { plains: r@.plains, ..old(self)@ }),
            *final(self) == *final(r),
    {
        self.plains.insert(plain);
        self
    }

    /// Adds several values to `plains`.
    pub fn plains(&mut self, plains: &[&str]) -> (r: &mut Self)
        ensures
            r@.plains.to_set() == old(self)@.plains.to_set().union(
                strs_view(plains@).to_set(),
            ),
            strictly_sorted(r@.plains),
            r@ == (InfoModel { plains: r@.plains, ..old(self)@ }),
            *final(self) == *final(r),
    {
        let ghost added = strs_view(plains@);
        let mut i: usize = 0;
        assert(added.take(0).to_set() =~= Set::<Seq<char>>::empty());
        while i < plains.len()
            invariant
                i <= added.len(),
                added == strs_view(plains@),
                self@.plains.to_set() == old(self)@.plains.to_set().union(
                    added.take(i as int).to_set(),
                ),
                self@ == (InfoModel { plains: self@.plains, ..old(self)@ }),
            decreases added.len() - i,
        {
            proof {
                lemma_take_one_more(added, i as int);
            }
            self.plains.insert(plains[i]);
            i = i + 1;
        }
        assert(added.take(i as int) =~= added);
        self.plains.lemma_sorted();
        self
    }

    /// Adds one value to `optional`.
    pub fn option(&mut self, option: InfoOptions) -> (r: &mut Self)
        ensures
            r@.optional.to_set() == old(self)@.optional.to_set().insert(option.text()),
            strictly_sorted(r@.optional),
            r@ == (InfoModel { optional: r@.optional, ..old(self)@ }),
            *final(self) == *final(r),
    {
        self.optional.insert(option.as_str());
        self
    }

    /// Adds several values to `optional`.
    pub fn options(&mut self, options: &[InfoOptions]) -> (r: &mut Self)
        ensures
            r@.optional.to_set() == old(self)@.optional.to_set().union(
                options@.map_values(|o: InfoOptions| o.text()).to_set(),
            ),
            strictly_sorted(r@.optional),
            r@ == (InfoModel { optional: r@.optional, ..old(self)@ }),
            *final(self) == *final(r),
    {
        let ghost added = options@.map_values(|o: InfoOptions| o.text());
        let mut i: usize = 0;
        assert(added.take(0).to_set() =~= Set::<Seq<char>>::empty());
        while i < options.len()
            invariant
                i <= added.len(),
                added == options@.map_values(|o: InfoOptions| o.text()),
                self@.optional.to_set() == old(self)@.optional.to_set().union(
                    added.take(i as int).to_set(),
                ),
                self@ == (InfoModel { optional: self@.optional, ..old(self)@ }),
            decreases added.len() - i,
        {
            proof {
                lemma_take_one_more(added, i as int);
            }
            self.optional.insert(options[i].as_str());
            i = i + 1;
        }
        assert(added.take(i as int) =~= added);
        self.optional.lemma_sorted();
        self
    }

    /// The endpoint, when every needed field is set and the fields go together.
    pub fn build(&self) -> (r: Result<Info, BuilderError>)
        ensures
            r is Ok <==> self@.complete(),
            r is Ok ==> r->Ok_0@ == self@,
            self@.plains.len() == 0 ==> r is Err && r->Err_0 is UninitializedField
                && r->Err_0->UninitializedField_0@ == "plains"@,
    {
        if self.plains.is_empty() {
            return Err(BuilderError::UninitializedField("plains"));
        }
        Ok(Info {
            plains: self.plains.clone(),
            optional: self.optional.clone(),
        })
    }
}

impl Endpoint for Info {
    open spec fn spec_method(&self) -> Method {
        Method::Get
    }

    open spec fn spec_path(&self) -> Seq<char> {
        "v01/game/info/"@
    }

    open spec fn spec_query(&self) -> Pairs {
        self@.query()
    }

    open spec fn spec_requires_api_key(&self) -> bool {
        true
    }

    fn method(&self) -> (r: Method) {
        Method::Get
    }

    fn endpoint(&self) -> (r: &'static str) {
        "v01/game/info/"
    }

    fn query_pairs(&self) -> (r: Vec<(String, String)>) {
        let mut pairs: Vec<(String, String)> = Vec::new();
        serialize_as_csv(&mut pairs, "plains", &self.plains);
        serialize_as_csv(&mut pairs, "optional", &self.optional);
        assert(pairs_view(pairs@) =~= self@.query());
        pairs
    }

    fn body(&self) -> (r: Result<Option<(&'static str, Vec<u8>)>, BodyError>) {
        Ok(None)
    }

    fn requires_api_key(&self) -> (r: bool) {
        true
    }

    fn requires_oauth_token(&self) -> (r: bool) {
        false
    }
}

/// Extra data an overview can hold.
#[derive(Debug, Clone, Copy, PartialEq, Eq, PartialOrd, Ord, Hash)]
pub enum OverviewOptions {
    Voucher,
    Local,
}

impl OverviewOptions {
    /// The text the service uses for this value.
    pub open spec fn text(self) -> Seq<char> {
        match self {
            OverviewOptions::Voucher => "voucher"@,
            OverviewOptions::Local => "local"@,
        }
    }

    /// The text the service uses for this value.
    pub fn as_str(&self) -> (r: &'static str)
        ensures
            r@ == self.text(),
    {
        match self {
            OverviewOptions::Voucher => "voucher",
            OverviewOptions::Local => "local",
        }
    }
}

/// The fields of [`Overview`] and of
/// [`OverviewBuilder`]; a field that was not set is `None` or empty.
pub struct OverviewModel {
    pub region: Option<Seq<char>>,
    pub country: Option<Seq<char>>,
    pub plains: Seq<Seq<char>>,
    pub shop: Option<Seq<char>>,
    pub ids: Seq<Seq<char>>,
    pub allowed: Seq<Seq<char>>,
    pub optional: Seq<Seq<char>>,
}

impl OverviewModel {
    /// The query parameters, in field order.
    pub open spec fn query(self) -> Pairs {
        opt_param("region"@, self.region)
            + opt_param("country"@, self.country)
            + list_param("plains"@, self.plains)
            + opt_param("shop"@, self.shop)
            + list_param("ids"@, self.ids)
            + list_param("allowed"@, self.allowed)
            + list_param("optional"@, self.optional)
    }

    /// Every field that the endpoint needs is set.
    pub open spec fn complete(self) -> bool {
        true
    }
}

/// An overview of the prices of games.
#[derive(Debug)]
pub struct Overview {
    region: Option<String>,
    country: Option<String>,
    plains: ValueSet,
    shop: Option<String>,
    ids: ValueSet,
    allowed: ValueSet,
    optional: ValueSet,
}

impl View for Overview {
    type V = OverviewModel;

    closed spec fn view(&self) -> OverviewModel {
        OverviewModel {
            region: opt_view(self.region),
            country: opt_view(self.country),
            plains: self.plains@,
            shop: opt_view(self.shop),
            ids: self.ids@,
            allowed: self.allowed@,
            optional: self.optional@,
        }
    }
}

impl Overview {
    /// Every value set it holds is in strictly increasing order.
    pub fn lemma_sorted(&self)
        ensures
            strictly_sorted(self@.plains),
            strictly_sorted(self@.ids),
            strictly_sorted(self@.allowed),
            strictly_sorted(self@.optional),
    {
        self.plains.lemma_sorted();
        self.ids.lemma_sorted();
        self.allowed.lemma_sorted();
        self.optional.lemma_sorted();
    }
}

impl Clone for Overview {
    fn clone(&self) -> (r: Self)
        ensures
            r@ == self@,
    {
        Overview {
            region: copy_opt(&self.region),
            country: copy_opt(&self.country),
            plains: self.plains.clone(),
            shop: copy_opt(&self.shop),
            ids: self.ids.clone(),
            allowed: self.allowed.clone(),
            optional: self.optional.clone(),
        }
    }
}

/// Collects the fields of [`Overview`] and checks them.
#[derive(Debug)]
pub struct OverviewBuilder {
    region: Option<String>,
    country: Option<String>,
    plains: ValueSet,
    shop: Option<String>,
    ids: ValueSet,
    allowed: ValueSet,
    optional: ValueSet,
}

impl View for OverviewBuilder {
    type V = OverviewModel;

    closed spec fn view(&self) -> OverviewModel {
        OverviewModel {
            region: opt_view(self.region),
            country: opt_view(self.country),
            plains: self.plains@,
            shop: opt_view(self.shop),
            ids: self.ids@,
            allowed: self.allowed@,
            optional: self.optional@,
        }
    }
}

impl OverviewBuilder {
    /// Every value set it holds is in strictly increasing order.
    pub fn lemma_sorted(&self)
        ensures
            strictly_sorted(self@.plains),
            strictly_sorted(self@.ids),
            strictly_sorted(self@.allowed),
            strictly_sorted(self@.optional),
    {
        self.plains.lemma_sorted();
        self.ids.lemma_sorted();
        self.allowed.lemma_sorted();
        self.optional.lemma_sorted();
    }
}

impl Clone for OverviewBuilder {
    fn clone(&self) -> (r: Self)
        ensures
            r@ == self@,
    {
        OverviewBuilder {
            region: copy_opt(&self.region),
            country: copy_opt(&self.country),
            plains: self.plains.clone(),
            shop: copy_opt(&self.shop),
            ids: self.ids.clone(),
            allowed: self.allowed.clone(),
            optional: self.optional.clone(),
        }
    }
}

impl Overview {
    /// A builder with no field set.
    pub fn builder() -> (r: OverviewBuilder)
        ensures
            r@ == (OverviewModel {
                region: None,
                country: None,
                plains: seq![],
                shop: None,
                ids: seq![],
                allowed: seq![],
                optional: seq![],
            }),
    {
        OverviewBuilder {
            region: None,
            country: None,
            plains: ValueSet::new(),
            shop: None,
            ids: ValueSet::new(),
            allowed: ValueSet::new(),
            optional: ValueSet::new(),
        }
    }
}

impl OverviewBuilder {
    /// Sets `region`.
    pub fn region(&mut self, value: &str) -> (r: &mut Self)
        ensures
            r@ == (OverviewModel { region: Some(value@), ..old(self)@ }),
            *final(self) == *final(r),
    {
        self.region = Some(value.to_string());
        self
    }

    /// Sets `country`.
    pub fn country(&mut self, value: &str) -> (r: &mut Self)
        ensures
            r@ == (OverviewModel { country: Some(value@), ..old(self)@ }),
            *final(self) == *final(r),
    {
        self.country = Some(value.to_string());
        self
    }

    /// Adds one value to `plains`.
    pub fn plain(&mut self, plain: &str) -> (r: &mut Self)
        ensures
            r@.plains.to_set() == old(self)@.plains.to_set().insert(plain@),
            strictly_sorted(r@.plains),
            r@ == (OverviewModel { plains: r@.plains, ..old(self)@ }),
            *final(self) == *final(r),
    {
        self.plains.insert(plain);
        self
    }

    /// Adds several values to `plains`.
    pub fn plains(&mut self, plains: &[&str]) -> (r: &mut Self)
        ensures
            r@.plains.to_set() == old(self)@.plains.to_set().union(
                strs_view(plains@).to_set(),
            ),
            strictly_sorted(r@.plains),
            r@ == (OverviewModel { plains: r@.plains, ..old(self)@ }),
            *final(self) == *final(r),
    {
        let ghost added = strs_view(plains@);
        let mut i: usize = 0;
        assert(added.take(0).to_set() =~= Set::<Seq<char>>::empty());
        while i < plains.len()
            invariant
                i <= added.len(),
                added == strs_view(plains@),
                self@.plains.to_set() == old(self)@.plains.to_set().union(
                    added.take(i as int).to_set(),
                ),
                self@ == (OverviewModel { plains: self@.plains, ..old(self)@ }),
            decreases added.len() - i,
        {
            proof {
                lemma_take_one_more(added, i as int);
            }
            self.plains.insert(plains[i]);
            i = i + 1;
        }
        assert(added.take(i as int) =~= added);
        self.plains.lemma_sorted();
        self
    }

    /// Sets `shop`.
    pub fn shop(&mut self, value: &str) -> (r: &mut Self)
        ensures
            r@ == (OverviewModel { shop: Some(value@), ..old(self)@ }),
            *final(self) == *final(r),
    {
        self.shop = Some(value.to_string());
        self
    }

    /// Adds one value to `ids`.
    pub fn id(&mut self, id: &str) -> (r: &mut Self)
        ensures
            r@.ids.to_set() == old(self)@.ids.to_set().insert(id@),
            strictly_sorted(r@.ids),
            r@ == (OverviewModel { ids: r@.ids, ..old(self)@ }),
            *final(self) == *final(r),
    {
        self.ids.insert(id);
        self
    }

    /// Adds several values to `ids`.
    pub fn ids(&mut self, ids: &[&str]) -> (r: &mut Self)
        ensures
            r@.ids.to_set() == old(self)@.ids.to_set().union(
                strs_view(ids@).to_set(),
            ),
            strictly_sorted(r@.ids),
            r@ == (OverviewModel { ids: r@.ids, ..old(self)@ }),
            *final(self) == *final(r),
    {
        let ghost added = strs_view(ids@);
        let mut i: usize = 0;
        assert(added.take(0).to_set() =~= Set::<Seq<char>>::empty());
        while i < ids.len()
            invariant
                i <= added.len(),
                added == strs_view(ids@),
                self@.ids.to_set() == old(self)@.ids.to_set().union(
                    added.take(i as int).to_set(),
                ),
                self@ == (OverviewModel { ids: self@.ids, ..old(self)@ }),
            decreases added.len() - i,
        {
            proof {
                lemma_take_one_more(added, i as int);
            }
            self.ids.insert(ids[i]);
            i = i + 1;
        }
        assert(added.take(i as int) =~= added);
        self.ids.lemma_sorted();
        self
    }

    /// Adds one value to `allowed`.
    pub fn allowed(&mut self, allowed: &str) -> (r: &mut Self)
        ensures
            r@.allowed.to_set() == old(self)@.allowed.to_set().insert(allowed@),
            strictly_sorted(r@.allowed),
            r@ == (OverviewModel { allowed: r@.allowed, ..old(self)@ }),
            *final(self) == *final(r),
    {
        self.allowed.insert(allowed);
        self
    }

    /// Adds several values to `allowed`.
    pub fn alloweds(&mut self, alloweds: &[&str]) -> (r: &mut Self)
        ensures
            r@.allowed.to_set() == old(self)@.allowed.to_set().union(
                strs_view(alloweds@).to_set(),
            ),
            strictly_sorted(r@.allowed),
            r@ == (OverviewModel { allowed: r@.allowed, ..old(self)@ }),
            *final(self) == *final(r),
    {
        let ghost added = strs_view(alloweds@);
        let mut i: usize = 0;
        assert(added.take(0).to_set() =~= Set::<Seq<char>>::empty());
        while i < alloweds.len()
            invariant
                i <= added.len(),
                added == strs_view(alloweds@),
                self@.allowed.to_set() == old(self)@.allowed.to_set().union(
                    added.take(i as int).to_set(),
                ),
                self@ == (OverviewModel { allowed: self@.allowed, ..old(self)@ }),
            decreases added.len() - i,
        {
            proof {
                lemma_take_one_more(added, i as int);
            }
            self.allowed.insert(alloweds[i]);
            i = i + 1;
        }
        assert(added.take(i as int) =~= added);
        self.allowed.lemma_sorted();
        self
    }

    /// Adds one value to `optional`.
    pub fn option(&mut self, option: OverviewOptions) -> (r: &mut Self)
        ensures
            r@.optional.to_set() == old(self)@.optional.to_set().insert(option.text()),
            strictly_sorted(r@.optional),
            r@ == (OverviewModel { optional: r@.optional, ..old(self)@ }),
            *final(self) == *final(r),
    {
        self.optional.insert(option.as_str());
        self
    }

    /// Adds several values to `optional`.
    pub fn options(&mut self, options: &[OverviewOptions]) -> (r: &mut Self)
        ensures
            r@.optional.to_set() == old(self)@.optional.to_set().union(
                options@.map_values(|o: OverviewOptions| o.text()).to_set(),
            ),
            strictly_sorted(r@.optional),
            r@ == (OverviewModel { optional: r@.optional, ..old(self)@ }),
            *final(self) == *final(r),
    {
        let ghost added = options@.map_values(|o: OverviewOptions| o.text());
        let mut i: usize = 0;
        assert(added.take(0).to_set() =~= Set::<Seq<char>>::empty());
        while i < options.len()
            invariant
                i <= added.len(),
                added == options@.map_values(|o: OverviewOptions| o.text()),
                self@.optional.to_set() == old(self)@.optional.to_set().union(
                    added.take(i as int).to_set(),
                ),
                self@ == (OverviewModel { optional: self@.optional, ..old(self)@ }),
            decreases added.len() - i,
        {
            proof {
                lemma_take_one_more(added, i as int);
            }
            self.optional.insert(options[i].as_str());
            i = i + 1;
        }
        assert(added.take(i as int) =~= added);
        self.optional.lemma_sorted();
        self
    }

    /// The endpoint, when every needed field is set and the fields go together.
    pub fn build(&self) -> (r: Result<Overview, BuilderError>)
        ensures
            r is Ok <==> self@.complete(),
            r is Ok ==> r->Ok_0@ == self@,
    {
        Ok(Overview {
            region: copy_opt(&self.region),
            country: copy_opt(&self.country),
            plains: self.plains.clone(),
            shop: copy_opt(&self.shop),
            ids: self.ids.clone(),
            allowed: self.allowed.clone(),
            optional: self.optional.clone(),
        })
    }
}

impl Endpoint for Overview {
    open spec fn spec_method(&self) -> Method {
        Method::Get
    }

    open spec fn spec_path(&self) -> Seq<char> {
        "v01/game/overview/"@
    }

    open spec fn spec_query(&self) -> Pairs {
        self@.query()
    }

    open spec fn spec_requires_api_key(&self) -> bool {
        true
    }

    fn method(&self) -> (r: Method) {
        Method::Get
    }

    fn endpoint(&self) -> (r: &'static str) {
        "v01/game/overview/"
    }

    fn query_pairs(&self) -> (r: Vec<(String, String)>) {
        let mut pairs: Vec<(String, String)> = Vec::new();
        push_opt(&mut pairs, "region", &self.region);
        push_opt(&mut pairs, "country", &self.country);
        serialize_as_csv(&mut pairs, "plains", &self.plains);
        push_opt(&mut pairs, "shop", &self.shop);
        serialize_as_csv(&mut pairs, "ids", &self.ids);
        serialize_as_csv(&mut pairs, "allowed", &self.allowed);
        serialize_as_csv(&mut pairs, "optional", &self.optional);
        assert(pairs_view(pairs@) =~= self@.query());
        pairs
    }

    fn body(&self) -> (r: Result<Option<(&'static str, Vec<u8>)>, BodyError>) {
        Ok(None)
    }

    fn requires_api_key(&self) -> (r: bool) {
        true
    }

    fn requires_oauth_token(&self) -> (r: bool) {
        false
    }
}

/// Price lists given the same values, added in any order, have the same query
/// string.
pub proof fn lemma_prices_query_canonical(a: PricesModel, b: PricesModel)
    requires
        strictly_sorted(a.plains),
        strictly_sorted(a.shops),
        strictly_sorted(a.exclude),
        strictly_sorted(b.plains),
        strictly_sorted(b.shops),
        strictly_sorted(b.exclude),
        a.plains.to_set() == b.plains.to_set(),
        a.shops.to_set() == b.shops.to_set(),
        a.exclude.to_set() == b.exclude.to_set(),
        a.region == b.region,
        a.country == b.country,
        a.added == b.added,
    ensures
        form_encoded(a.query()) == form_encoded(b.query()),
{
    lemma_sorted_canonical(a.plains, b.plains);
    lemma_sorted_canonical(a.shops, b.shops);
    lemma_sorted_canonical(a.exclude, b.exclude);
    assert(a.query() == b.query());
}

/// A price list's query names exactly the fields that are set: an absent
/// field, or an empty value set, gives no parameter.
pub proof fn lemma_prices_absent_fields_omitted(m: PricesModel)
    ensures
        keys(m.query()) == key_if(m.plains.len() > 0, "plains"@)
            + key_if(m.region is Some, "region"@)
            + key_if(m.country is Some, "country"@)
            + key_if(m.shops.len() > 0, "shops"@)
            + key_if(m.exclude.len() > 0, "exclude"@)
            + key_if(m.added is Some, "added"@),
{
    let p1 = list_param("plains"@, m.plains);
    let p2 = opt_param("region"@, m.region);
    let p3 = opt_param("country"@, m.country);
    let p4 = list_param("shops"@, m.shops);
    let p5 = list_param("exclude"@, m.exclude);
    let p6 = opt_param("added"@, m.added);
    lemma_list_param_keys("plains"@, m.plains);
    lemma_opt_param_keys("region"@, m.region);
    lemma_opt_param_keys("country"@, m.country);
    lemma_list_param_keys("shops"@, m.shops);
    lemma_list_param_keys("exclude"@, m.exclude);
    lemma_opt_param_keys("added"@, m.added);
    lemma_keys_concat(p1, p2);
    lemma_keys_concat(p1 + p2, p3);
    lemma_keys_concat(p1 + p2 + p3, p4);
    lemma_keys_concat(p1 + p2 + p3 + p4, p5);
    lemma_keys_concat(p1 + p2 + p3 + p4 + p5, p6);
}

} // verus!
