//! The signed-in user's collection.
use vstd::prelude::*;

use super::endpoint::{Endpoint, Method};
use super::params::{
    list_param, opt_bool_text, opt_param, opt_view, pairs_view, push_opt, push_opt_bool,
    push_param, serialize_as_csv, upload_form, upload_form_body, Pairs,
};
use super::values::{lemma_take_one_more, strictly_sorted, ValueSet};
use super::error::{BodyError, BuilderError};
use crate::auth::copy_opt;
use vstd::utf8::encode_utf8;

verus! {

/// Extra data a collection check can return.
#[derive(Debug, Clone, Copy, PartialEq, Eq, PartialOrd, Ord, Hash)]
pub enum CollectionCheckOptions {
    Stores,
}

impl CollectionCheckOptions {
    /// The text the service uses for this value.
    pub open spec fn text(self) -> Seq<char> {
        match self {
            CollectionCheckOptions::Stores => "stores"@,
        }
    }

    /// The text the service uses for this value.
    pub fn as_str(&self) -> (r: &'static str)
        ensures
            r@ == self.text(),
    {
        match self {
            CollectionCheckOptions::Stores => "stores",
        }
    }
}

/// The fields of [`CollectionCheck`] and of
/// [`CollectionCheckBuilder`]; a field that was not set is `None` or empty.
pub struct CollectionCheckModel {
    pub plain: Option<Seq<char>>,
    pub optional: Seq<Seq<char>>,
}

impl CollectionCheckModel {
    /// The query parameters, in field order.
    pub open spec fn query(self) -> Pairs {
        opt_param("plain"@, self.plain)
            + list_param("optional"@, self.optional)
    }

    /// Every field that the endpoint needs is set.
    pub open spec fn complete(self) -> bool {
        self.plain is Some
    }
}

/// Checks whether a game is in the collection.
#[derive(Debug)]
pub struct CollectionCheck {
    plain: String,
    optional: ValueSet,
}

impl View for CollectionCheck {
    type V = CollectionCheckModel;

    closed spec fn view(&self) -> CollectionCheckModel {
        CollectionCheckModel {
            plain: Some(self.plain@),
            optional: self.optional@,
        }
    }
}

impl CollectionCheck {
    /// Every value set it holds is in strictly increasing order.
    pub fn lemma_sorted(&self)
        ensures
            strictly_sorted(self@.optional),
    {
        self.optional.lemma_sorted();
    }
}

impl Clone for CollectionCheck {
    fn clone(&self) -> (r: Self)
        ensures
            r@ == self@,
    {
        CollectionCheck {
            plain: self.plain.clone(),
            optional: self.optional.clone(),
        }
    }
}

/// Collects the fields of [`CollectionCheck`] and checks them.
#[derive(Debug)]
pub struct CollectionCheckBuilder {
    plain: Option<String>,
    optional: ValueSet,
}

impl View for CollectionCheckBuilder {
    type V = CollectionCheckModel;

    closed spec fn view(&self) -> CollectionCheckModel {
        CollectionCheckModel {
            plain: opt_view(self.plain),
            optional: self.optional@,
        }
    }
}

impl CollectionCheckBuilder {
    /// Every value set it holds is in strictly increasing order.
    pub fn lemma_sorted(&self)
        ensures
            strictly_sorted(self@.optional),
    {
        self.optional.lemma_sorted();
    }
}

impl Clone for CollectionCheckBuilder {
    fn clone(&self) -> (r: Self)
        ensures
            r@ == self@,
    {
        CollectionCheckBuilder {
            plain: copy_opt(&self.plain),
            optional: self.optional.clone(),
        }
    }
}

impl CollectionCheck {
    /// A builder with no field set.
    pub fn builder() -> (r: CollectionCheckBuilder)
        ensures
            r@ == (CollectionCheckModel { plain: None, optional: seq![] }),
    {
        CollectionCheckBuilder {
            plain: None,
            optional: ValueSet::new(),
        }
    }
}

impl CollectionCheckBuilder {
    /// Sets `plain`.
    pub fn plain(&mut self, value: &str) -> (r: &mut Self)
        ensures
            r@ == (CollectionCheckModel { plain: Some(value@), ..old(self)@ }),
            *final(self) == *final(r),
    {
        self.plain = Some(value.to_string());
        self
    }

    /// Adds one value to `optional`.
    pub fn option(&mut self, option: CollectionCheckOptions) -> (r: &mut Self)
        ensures
            r@.optional.to_set() == old(self)@.optional.to_set().insert(option.text()),
            strictly_sorted(r@.optional),
            r@ == (CollectionCheckModel { optional: r@.optional, ..old(self)@ }),
            *final(self) == *final(r),
    {
        self.optional.insert(option.as_str());
        self
    }

    /// Adds several values to `optional`.
    pub fn options(&mut self, options: &[CollectionCheckOptions]) -> (r: &mut Self)
        ensures
            r@.optional.to_set() == old(self)@.optional.to_set().union(
                options@.map_values(|o: CollectionCheckOptions| o.text()).to_set(),
            ),
            strictly_sorted(r@.optional),
            r@ == (CollectionCheckModel { optional: r@.optional, ..old(self)@ }),
            *final(self) == *final(r),
    {
        let ghost added = options@.map_values(|o: CollectionCheckOptions| o.text());
        let mut i: usize = 0;
        assert(added.take(0).to_set() =~= Set::<Seq<char>>::empty());
        while i < options.len()
            invariant
                i <= added.len(),
                added == options@.map_values(|o: CollectionCheckOptions| o.text()),
                self@.optional.to_set() == old(self)@.optional.to_set().union(
                    added.take(i as int).to_set(),
                ),
                self@ == (CollectionCheckModel { optional: self@.optional, ..old(self)@ }),
            decreases added.len() - i,
        {
            proof {
                lemma_take_one_more(added, i as int);
            }
            self.optional.insert(options[i].as_str());
            i = i + 1;
        }
        assert(added.take(i as int) =~= added);
        self.optional.lemma_sorted();
        self
    }

    /// The endpoint, when every needed field is set and the fields go together.
    pub fn build(&self) -> (r: Result<CollectionCheck, BuilderError>)
        ensures
            r is Ok <==> self@.complete(),
            r is Ok ==> r->Ok_0@ == self@,
            self@.plain is None ==> r is Err && r->Err_0 is UninitializedField
                && r->Err_0->UninitializedField_0@ == "plain"@,
    {
        let plain = match &self.plain {
            Some(v) => v.clone(),
            None => {
                return Err(BuilderError::UninitializedField("plain"));
            },
        };
        Ok(CollectionCheck {
            plain,
            optional: self.optional.clone(),
        })
    }
}

impl Endpoint for CollectionCheck {
    open spec fn spec_method(&self) -> Method {
        Method::Get
    }

    open spec fn spec_path(&self) -> Seq<char> {
        "v01/user/coll/"@
    }

    open spec fn spec_query(&self) -> Pairs {
        self@.query()
    }

    open spec fn spec_requires_oauth_token(&self) -> bool {
        true
    }

    fn method(&self) -> (r: Method) {
        Method::Get
    }

    fn endpoint(&self) -> (r: &'static str) {
        "v01/user/coll/"
    }

    fn query_pairs(&self) -> (r: Vec<(String, String)>) {
        let mut pairs: Vec<(String, String)> = Vec::new();
        push_param(&mut pairs, "plain", self.plain.as_str());
        serialize_as_csv(&mut pairs, "optional", &self.optional);
        assert(pairs_view(pairs@) =~= self@.query());
        pairs
    }

    fn body(&self) -> (r: Result<Option<(&'static str, Vec<u8>)>, BodyError>) {
        Ok(None)
    }

    fn requires_api_key(&self) -> (r: bool) {
        false
    }

    fn requires_oauth_token(&self) -> (r: bool) {
        true
    }
}

/// The data a collection listing returns for each game.
#[derive(Debug, Clone, Copy, PartialEq, Eq, PartialOrd, Ord, Hash)]
pub enum CollectionOptions {
    Plain,
    Title,
    Gameid,
    CopyType,
}

impl CollectionOptions {
    /// The text the service uses for this value.
    pub open spec fn text(self) -> Seq<char> {
        match self {
            CollectionOptions::Plain => "plain"@,
            CollectionOptions::Title => "title"@,
            CollectionOptions::Gameid => "gameid"@,
            CollectionOptions::CopyType => "copy_type"@,
        }
    }

    /// The text the service uses for this value.
    pub fn as_str(&self) -> (r: &'static str)
        ensures
            r@ == self.text(),
    {
        match self {
            CollectionOptions::Plain => "plain",
            CollectionOptions::Title => "title",
            CollectionOptions::Gameid => "gameid",
            CollectionOptions::CopyType => "copy_type",
        }
    }
}

/// The fields of [`Collection`] and of
/// [`CollectionBuilder`]; a field that was not set is `None` or empty.
pub struct CollectionModel {
    pub shop: Option<Seq<char>>,
    pub short: Option<bool>,
    pub optional: Seq<Seq<char>>,
}

impl CollectionModel {
    /// The query parameters, in field order.
    pub open spec fn query(self) -> Pairs {
        opt_param("shop"@, self.shop)
            + opt_param("short"@, opt_bool_text(self.short))
            + list_param("optional"@, self.optional)
    }

    /// Every field that the endpoint needs is set.
    pub open spec fn complete(self) -> bool {
        true
    }

    /// At least one of `plain`, `title` and `gameid` is requested.
    pub open spec fn names_an_identifier(self) -> bool {
        self.optional.contains("plain"@) || self.optional.contains("title"@)
            || self.optional.contains("gameid"@)
    }

    /// At least one of `plain`, `title` and `gameid` is requested, and a request
    /// for `gameid` names the shop.
    pub open spec fn valid(self) -> bool {
        self.names_an_identifier() && !(self.optional.contains("gameid"@) && self.shop is None)
    }
}

/// Lists the collection.
#[derive(Debug)]
pub struct Collection {
    shop: Option<String>,
    short: Option<bool>,
    optional: ValueSet,
}

impl View for Collection {
    type V = CollectionModel;

    closed spec fn view(&self) -> CollectionModel {
        CollectionModel {
            shop: opt_view(self.shop),
            short: self.short,
            optional: self.optional@,
        }
    }
}

impl Collection {
    /// Every value set it holds is in strictly increasing order.
    pub fn lemma_sorted(&self)
        ensures
            strictly_sorted(self@.optional),
    {
        self.optional.lemma_sorted();
    }
}

impl Clone for Collection {
    fn clone(&self) -> (r: Self)
        ensures
            r@ == self@,
    {
        Collection {
            shop: copy_opt(&self.shop),
            short: self.short,
            optional: self.optional.clone(),
        }
    }
}

/// Collects the fields of [`Collection`] and checks them.
#[derive(Debug)]
pub struct CollectionBuilder {
    shop: Option<String>,
    short: Option<bool>,
    optional: ValueSet,
}

impl View for CollectionBuilder {
    type V = CollectionModel;

    closed spec fn view(&self) -> CollectionModel {
        CollectionModel {
            shop: opt_view(self.shop),
            short: self.short,
            optional: self.optional@,
        }
    }
}

impl CollectionBuilder {
    /// Every value set it holds is in strictly increasing order.
    pub fn lemma_sorted(&self)
        ensures
            strictly_sorted(self@.optional),
    {
        self.optional.lemma_sorted();
    }
}

impl Clone for CollectionBuilder {
    fn clone(&self) -> (r: Self)
        ensures
            r@ == self@,
    {
        CollectionBuilder {
            shop: copy_opt(&self.shop),
            short: self.short,
            optional: self.optional.clone(),
        }
    }
}

impl Collection {
    /// A builder with no field set.
    pub fn builder() -> (r: CollectionBuilder)
        ensures
            r@ == (CollectionModel { shop: None, short: None, optional: seq![] }),
    {
        CollectionBuilder {
            shop: None,
            short: None,
            optional: ValueSet::new(),
        }
    }
}

impl CollectionBuilder {
    /// Sets `shop`.
    pub fn shop(&mut self, value: &str) -> (r: &mut Self)
        ensures
            r@ == (CollectionModel { shop: Some(value@), ..old(self)@ }),
            *final(self) == *final(r),
    {
        self.shop = Some(value.to_string());
        self
    }

    /// Sets `short`.
    pub fn short(&mut self, value: bool) -> (r: &mut Self)
        ensures
            r@ == (CollectionModel { short: Some(value), ..old(self)@ }),
            *final(self) == *final(r),
    {
        self.short = Some(value);
        self
    }

    /// Adds one value to `optional`.
    pub fn option(&mut self, option: CollectionOptions) -> (r: &mut Self)
        ensures
            r@.optional.to_set() == old(self)@.optional.to_set().insert(option.text()),
            strictly_sorted(r@.optional),
            r@ == (CollectionModel { optional: r@.optional, ..old(self)@ }),
            *final(self) == *final(r),
    {
        self.optional.insert(option.as_str());
        self
    }

    /// Adds several values to `optional`.
    pub fn options(&mut self, options: &[CollectionOptions]) -> (r: &mut Self)
        ensures
            r@.optional.to_set() == old(self)@.optional.to_set().union(
                options@.map_values(|o: CollectionOptions| o.text()).to_set(),
            ),
            strictly_sorted(r@.optional),
            r@ == (CollectionModel { optional: r@.optional, ..old(self)@ }),
            *final(self) == *final(r),
    {
        let ghost added = options@.map_values(|o: CollectionOptions| o.text());
        let mut i: usize = 0;
        assert(added.take(0).to_set() =~= Set::<Seq<char>>::empty());
        while i < options.len()
            invariant
                i <= added.len(),
                added == options@.map_values(|o: CollectionOptions| o.text()),
                self@.optional.to_set() == old(self)@.optional.to_set().union(
                    added.take(i as int).to_set(),
                ),
                self@ == (CollectionModel { optional: self@.optional, ..old(self)@ }),
            decreases added.len() - i,
        {
            proof {
                lemma_take_one_more(added, i as int);
            }
            self.optional.insert(options[i].as_str());
            i = i + 1;
        }
        assert(added.take(i as int) =~= added);
        self.optional.lemma_sorted();
        self
    }

    /// Checks the rules on fields that go together.
    pub fn validate(&self) -> (r: Result<(), String>)
        ensures
            r is Ok <==> self@.valid(),
            !self@.names_an_identifier()
                ==> r is Err && r->Err_0@ == "You must specify one of Plain, Title or Gameid"@,
            self@.names_an_identifier() && self@.optional.contains("gameid"@) && self@.shop is None
                ==> r is Err && r->Err_0@ == "If you set Gameid, you must specify a shop ID"@,
    {
        let by_plain = self.optional.contains(CollectionOptions::Plain.as_str());
        let by_title = self.optional.contains(CollectionOptions::Title.as_str());
        let by_id = self.optional.contains(CollectionOptions::Gameid.as_str());
        if !by_plain && !by_title && !by_id {
            return Err("You must specify one of Plain, Title or Gameid".to_string());
        }
        if by_id && self.shop.is_none() {
            return Err("If you set Gameid, you must specify a shop ID".to_string());
        }
        Ok(())
    }

    /// The endpoint, when every needed field is set and the fields go together.
    pub fn build(&self) -> (r: Result<Collection, BuilderError>)
        ensures
            r is Ok <==> self@.valid() && self@.complete(),
            r is Ok ==> r->Ok_0@ == self@,
            !self@.names_an_identifier()
                ==> r is Err
                && r->Err_0 is ValidationError
                && r->Err_0->ValidationError_0@
                == "You must specify one of Plain, Title or Gameid"@,
            self@.names_an_identifier() && self@.optional.contains("gameid"@) && self@.shop is None
                ==> r is Err
                && r->Err_0 is ValidationError
                && r->Err_0->ValidationError_0@
                == "If you set Gameid, you must specify a shop ID"@,
    {
        match self.validate() {
            Ok(()) => {},
            Err(msg) => {
                return Err(BuilderError::ValidationError(msg));
            },
        }
        Ok(Collection {
            shop: copy_opt(&self.shop),
            short: self.short,
            optional: self.optional.clone(),
        })
    }
}

impl Endpoint for Collection {
    open spec fn spec_method(&self) -> Method {
        Method::Get
    }

    open spec fn spec_path(&self) -> Seq<char> {
        "v02/user/coll/all/"@
    }

    open spec fn spec_query(&self) -> Pairs {
        self@.query()
    }

    open spec fn spec_requires_oauth_token(&self) -> bool {
        true
    }

    fn method(&self) -> (r: Method) {
        Method::Get
    }

    fn endpoint(&self) -> (r: &'static str) {
        "v02/user/coll/all/"
    }

    fn query_pairs(&self) -> (r: Vec<(String, String)>) {
        let mut pairs: Vec<(String, String)> = Vec::new();
        push_opt(&mut pairs, "shop", &self.shop);
        push_opt_bool(&mut pairs, "short", self.short);
        serialize_as_csv(&mut pairs, "optional", &self.optional);
        assert(pairs_view(pairs@) =~= self@.query());
        pairs
    }

    fn body(&self) -> (r: Result<Option<(&'static str, Vec<u8>)>, BodyError>) {
        Ok(None)
    }

    fn requires_api_key(&self) -> (r: bool) {
        false
    }

    fn requires_oauth_token(&self) -> (r: bool) {
        true
    }
}

/// The fields of [`ImportCollectionViaForm`] and of
/// [`ImportCollectionViaFormBuilder`]; a field that was not set is `None` or empty.
pub struct ImportCollectionViaFormModel {
    pub body: Option<Seq<char>>,
}

impl ImportCollectionViaFormModel {
    /// The query parameters, in field order.
    pub open spec fn query(self) -> Pairs {
        seq![]
    }

    /// Every field that the endpoint needs is set.
    pub open spec fn complete(self) -> bool {
        self.body is Some
    }
}

/// Sends the user to the form that imports a collection, given as a JSON document.
#[derive(Debug)]
pub struct ImportCollectionViaForm {
    body: String,
}

impl View for ImportCollectionViaForm {
    type V = ImportCollectionViaFormModel;

    closed spec fn view(&self) -> ImportCollectionViaFormModel {
        ImportCollectionViaFormModel {
            body: Some(self.body@),
        }
    }
}

impl Clone for ImportCollectionViaForm {
    fn clone(&self) -> (r: Self)
        ensures
            r@ == self@,
    {
        ImportCollectionViaForm {
            body: self.body.clone(),
        }
    }
}

/// Collects the fields of [`ImportCollectionViaForm`] and checks them.
#[derive(Debug)]
pub struct ImportCollectionViaFormBuilder {
    body: Option<String>,
}

impl View for ImportCollectionViaFormBuilder {
    type V = ImportCollectionViaFormModel;

    closed spec fn view(&self) -> ImportCollectionViaFormModel {
        ImportCollectionViaFormModel {
            body: opt_view(self.body),
        }
    }
}

impl Clone for ImportCollectionViaFormBuilder {
    fn clone(&self) -> (r: Self)
        ensures
            r@ == self@,
    {
        ImportCollectionViaFormBuilder {
            body: copy_opt(&self.body),
        }
    }
}

impl ImportCollectionViaForm {
    /// A builder with no field set.
    pub fn builder() -> (r: ImportCollectionViaFormBuilder)
        ensures
            r@ == (ImportCollectionViaFormModel { body: None }),
    {
        ImportCollectionViaFormBuilder {
            body: None,
        }
    }
}

impl ImportCollectionViaFormBuilder {
    /// Sets `body`.
    pub fn body(&mut self, value: &str) -> (r: &mut Self)
        ensures
            r@ == (ImportCollectionViaFormModel { body: Some(value@), ..old(self)@ }),
            *final(self) == *final(r),
    {
        self.body = Some(value.to_string());
        self
    }

    /// The endpoint, when every needed field is set and the fields go together.
    pub fn build(&self) -> (r: Result<ImportCollectionViaForm, BuilderError>)
        ensures
            r is Ok <==> self@.complete(),
            r is Ok ==> r->Ok_0@ == self@,
            self@.body is None ==> r is Err && r->Err_0 is UninitializedField
                && r->Err_0->UninitializedField_0@ == "body"@,
    {
        let body = match &self.body {
            Some(v) => v.clone(),
            None => {
                return Err(BuilderError::UninitializedField("body"));
            },
        };
        Ok(ImportCollectionViaForm {
            body,
        })
    }
}

impl Endpoint for ImportCollectionViaForm {
    open spec fn spec_method(&self) -> Method {
        Method::Post
    }

    open spec fn spec_path(&self) -> Seq<char> {
        "collection/import/"@
    }

    open spec fn spec_query(&self) -> Pairs {
        self@.query()
    }

    open spec fn spec_body(&self) -> Option<(Seq<char>, Seq<u8>)> {
        Some(("application/x-www-form-urlencoded"@, upload_form(self@.body->0)))
    }

    fn method(&self) -> (r: Method) {
        Method::Post
    }

    fn endpoint(&self) -> (r: &'static str) {
        "collection/import/"
    }

    fn query_pairs(&self) -> (r: Vec<(String, String)>) {
        let mut pairs: Vec<(String, String)> = Vec::new();
        assert(pairs_view(pairs@) =~= self@.query());
        pairs
    }

    fn body(&self) -> (r: Result<Option<(&'static str, Vec<u8>)>, BodyError>) {
        match upload_form_body(self.body.as_str()) {
            Ok(bytes) => Ok(Some(("application/x-www-form-urlencoded", bytes))),
            Err(e) => Err(e),
        }
    }

    fn requires_api_key(&self) -> (r: bool) {
        false
    }

    fn requires_oauth_token(&self) -> (r: bool) {
        false
    }
}

/// The fields of [`ImportCollection`] and of
/// [`ImportCollectionBuilder`]; a field that was not set is `None` or empty.
pub struct ImportCollectionModel {
    pub file: Option<Seq<char>>,
}

impl ImportCollectionModel {
    /// The query parameters, in field order.
    pub open spec fn query(self) -> Pairs {
        seq![]
    }

    /// Every field that the endpoint needs is set.
    pub open spec fn complete(self) -> bool {
        self.file is Some
    }
}

/// Imports a collection given as a JSON document.
#[derive(Debug)]
pub struct ImportCollection {
    file: String,
}

impl View for ImportCollection {
    type V = ImportCollectionModel;

    closed spec fn view(&self) -> ImportCollectionModel {
        ImportCollectionModel {
            file: Some(self.file@),
        }
    }
}

impl Clone for ImportCollection {
    fn clone(&self) -> (r: Self)
        ensures
            r@ == self@,
    {
        ImportCollection {
            file: self.file.clone(),
        }
    }
}

/// Collects the fields of [`ImportCollection`] and checks them.
#[derive(Debug)]
pub struct ImportCollectionBuilder {
    file: Option<String>,
}

impl View for ImportCollectionBuilder {
    type V = ImportCollectionModel;

    closed spec fn view(&self) -> ImportCollectionModel {
        ImportCollectionModel {
            file: opt_view(self.file),
        }
    }
}

impl Clone for ImportCollectionBuilder {
    fn clone(&self) -> (r: Self)
        ensures
            r@ == self@,
    {
        ImportCollectionBuilder {
            file: copy_opt(&self.file),
        }
    }
}

impl ImportCollection {
    /// A builder with no field set.
    pub fn builder() -> (r: ImportCollectionBuilder)
        ensures
            r@ == (ImportCollectionModel { file: None }),
    {
        ImportCollectionBuilder {
            file: None,
        }
    }
}

impl ImportCollectionBuilder {
    /// Sets `file`.
    pub fn file(&mut self, value: &str) -> (r: &mut Self)
        ensures
            r@ == (ImportCollectionModel { file: Some(value@), ..old(self)@ }),
            *final(self) == *final(r),
    {
        self.file = Some(value.to_string());
        self
    }

    /// The endpoint, when every needed field is set and the fields go together.
    pub fn build(&self) -> (r: Result<ImportCollection, BuilderError>)
        ensures
            r is Ok <==> self@.complete(),
            r is Ok ==> r->Ok_0@ == self@,
            self@.file is None ==> r is Err && r->Err_0 is UninitializedField
                && r->Err_0->UninitializedField_0@ == "file"@,
    {
        let file = match &self.file {
            Some(v) => v.clone(),
            None => {
                return Err(BuilderError::UninitializedField("file"));
            },
        };
        Ok(ImportCollection {
            file,
        })
    }
}

impl Endpoint for ImportCollection {
    open spec fn spec_method(&self) -> Method {
        Method::Post
    }

    open spec fn spec_path(&self) -> Seq<char> {
        "v01/collection/import/"@
    }

    open spec fn spec_query(&self) -> Pairs {
        self@.query()
    }

    open spec fn spec_body(&self) -> Option<(Seq<char>, Seq<u8>)> {
        Some(("application/json"@, encode_utf8(self@.file->0)))
    }

    open spec fn spec_requires_oauth_token(&self) -> bool {
        true
    }

    fn method(&self) -> (r: Method) {
        Method::Post
    }

    fn endpoint(&self) -> (r: &'static str) {
        "v01/collection/import/"
    }

    fn query_pairs(&self) -> (r: Vec<(String, String)>) {
        let mut pairs: Vec<(String, String)> = Vec::new();
        assert(pairs_view(pairs@) =~= self@.query());
        pairs
    }

    fn body(&self) -> (r: Result<Option<(&'static str, Vec<u8>)>, BodyError>) {
        Ok(Some(("application/json", self.file.as_str().as_bytes_vec())))
    }

    fn requires_api_key(&self) -> (r: bool) {
        false
    }

    fn requires_oauth_token(&self) -> (r: bool) {
        true
    }
}

} // verus!
