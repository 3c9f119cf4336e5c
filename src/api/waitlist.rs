//! The signed-in user's waitlist.
use vstd::prelude::*;

use super::endpoint::{Endpoint, Method};
use super::params::{
    list_param, opt_param, opt_view, pairs_view, push_opt, push_param, serialize_as_csv,
    upload_form, upload_form_body, Pairs,
};
use super::values::{lemma_take_one_more, strictly_sorted, strs_view, ValueSet};
use super::error::{BodyError, BuilderError};
use crate::auth::copy_opt;
use vstd::utf8::encode_utf8;

verus! {

/// The fields of [`WaitlistCheck`] and of
/// [`WaitlistCheckBuilder`]; a field that was not set is `None` or empty.
pub struct WaitlistCheckModel {
    pub plain: Option<Seq<char>>,
}

impl WaitlistCheckModel {
    /// The query parameters, in field order.
    pub open spec fn query(self) -> Pairs {
        opt_param("plain"@, self.plain)
    }

    /// Every field that the endpoint needs is set.
    pub open spec fn complete(self) -> bool {
        self.plain is Some
    }
}

/// Checks whether a game is on the waitlist.
#[derive(Debug)]
pub struct WaitlistCheck {
    plain: String,
}

impl View for WaitlistCheck {
    type V = WaitlistCheckModel;

    closed spec fn view(&self) -> WaitlistCheckModel {
        WaitlistCheckModel {
            plain: Some(self.plain@),
        }
    }
}

impl Clone for WaitlistCheck {
    fn clone(&self) -> (r: Self)
        ensures
            r@ == self@,
    {
        WaitlistCheck {
            plain: self.plain.clone(),
        }
    }
}

/// Collects the fields of [`WaitlistCheck`] and checks them.
#[derive(Debug)]
pub struct WaitlistCheckBuilder {
    plain: Option<String>,
}

impl View for WaitlistCheckBuilder {
    type V = WaitlistCheckModel;

    closed spec fn view(&self) -> WaitlistCheckModel {
        WaitlistCheckModel {
            plain: opt_view(self.plain),
        }
    }
}

impl Clone for WaitlistCheckBuilder {
    fn clone(&self) -> (r: Self)
        ensures
            r@ == self@,
    {
        WaitlistCheckBuilder {
            plain: copy_opt(&self.plain),
        }
    }
}

impl WaitlistCheck {
    /// A builder with no field set.
    pub fn builder() -> (r: WaitlistCheckBuilder)
        ensures
            r@ == (WaitlistCheckModel { plain: None }),
    {
        WaitlistCheckBuilder {
            plain: None,
        }
    }
}

impl WaitlistCheckBuilder {
    /// Sets `plain`.
    pub fn plain(&mut self, value: &str) -> (r: &mut Self)
        ensures
            r@ == (WaitlistCheckModel { plain: Some(value@), ..old(self)@ }),
            *final(self) == *final(r),
    {
        self.plain = Some(value.to_string());
        self
    }

    /// The endpoint, when every needed field is set and the fields go together.
    pub fn build(&self) -> (r: Result<WaitlistCheck, BuilderError>)
        ensures
            r is Ok <==> self@.complete(),
            r is Ok ==> r->Ok_0@ == self@,
            self@.plain is None ==> r is Err && r->Err_0 is UninitializedField
                && r->Err_0->UninitializedField_0@ == "plain"@,
    {
        let plain = match &self.plain {
            Some(v) => v.clone(),
            None => {
                return Err(BuilderError::UninitializedField("plain"));
            },
        };
        Ok(WaitlistCheck {
            plain,
        })
    }
}

impl Endpoint for WaitlistCheck {
    open spec fn spec_method(&self) -> Method {
        Method::Get
    }

    open spec fn spec_path(&self) -> Seq<char> {
        "v01/user/wait/"@
    }

    open spec fn spec_query(&self) -> Pairs {
        self@.query()
    }

    open spec fn spec_requires_oauth_token(&self) -> bool {
        true
    }

    fn method(&self) -> (r: Method) {
        Method::Get
    }

    fn endpoint(&self) -> (r: &'static str) {
        "v01/user/wait/"
    }

    fn query_pairs(&self) -> (r: Vec<(String, String)>) {
        let mut pairs: Vec<(String, String)> = Vec::new();
        push_param(&mut pairs, "plain", self.plain.as_str());
        assert(pairs_view(pairs@) =~= self@.query());
        pairs
    }

    fn body(&self) -> (r: Result<Option<(&'static str, Vec<u8>)>, BodyError>) {
        Ok(None)
    }

    fn requires_api_key(&self) -> (r: bool) {
        false
    }

    fn requires_oauth_token(&self) -> (r: bool) {
        true
    }
}

/// Extra data a waitlist listing can return.
#[derive(Debug, Clone, Copy, PartialEq, Eq, PartialOrd, Ord, Hash)]
pub enum WaitlistOptions {
    Title,
    Gameid,
}

impl WaitlistOptions {
    /// The text the service uses for this value.
    pub open spec fn text(self) -> Seq<char> {
        match self {
            WaitlistOptions::Title => "title"@,
            WaitlistOptions::Gameid => "gameid"@,
        }
    }

    /// The text the service uses for this value.
    pub fn as_str(&self) -> (r: &'static str)
        ensures
            r@ == self.text(),
    {
        match self {
            WaitlistOptions::Title => "title",
            WaitlistOptions::Gameid => "gameid",
        }
    }
}

/// The fields of [`Waitlist`] and of
/// [`WaitlistBuilder`]; a field that was not set is `None` or empty.
pub struct WaitlistModel {
    pub shop: Option<Seq<char>>,
    pub optional: Option<WaitlistOptions>,
}

impl WaitlistModel {
    /// The query parameters, in field order.
    pub open spec fn query(self) -> Pairs {
        opt_param("shop"@, self.shop)
            + opt_param(
            "optional"@,
            match self.optional {
                Some(v) => Some(v.text()),
                None => None,
            },
        )
    }

    /// Every field that the endpoint needs is set.
    pub open spec fn complete(self) -> bool {
        true
    }
}

/// Lists the waitlist.
#[derive(Debug)]
pub struct Waitlist {
    shop: Option<String>,
    optional: Option<WaitlistOptions>,
}

impl View for Waitlist {
    type V = WaitlistModel;

    closed spec fn view(&self) -> WaitlistModel {
        WaitlistModel {
            shop: opt_view(self.shop),
            optional: self.optional,
        }
    }
}

impl Clone for Waitlist {
    fn clone(&self) -> (r: Self)
        ensures
            r@ == self@,
    {
        Waitlist {
            shop: copy_opt(&self.shop),
            optional: self.optional,
        }
    }
}

/// Collects the fields of [`Waitlist`] and checks them.
#[derive(Debug)]
pub struct WaitlistBuilder {
    shop: Option<String>,
    optional: Option<WaitlistOptions>,
}

impl View for WaitlistBuilder {
    type V = WaitlistModel;

    closed spec fn view(&self) -> WaitlistModel {
        WaitlistModel {
            shop: opt_view(self.shop),
            optional: self.optional,
        }
    }
}

impl Clone for WaitlistBuilder {
    fn clone(&self) -> (r: Self)
        ensures
            r@ == self@,
    {
        WaitlistBuilder {
            shop: copy_opt(&self.shop),
            optional: self.optional,
        }
    }
}

impl Waitlist {
    /// A builder with no field set.
    pub fn builder() -> (r: WaitlistBuilder)
        ensures
            r@ == (WaitlistModel { shop: None, optional: None }),
    {
        WaitlistBuilder {
            shop: None,
            optional: None,
        }
    }
}

impl WaitlistBuilder {
    /// Sets `shop`.
    pub fn shop(&mut self, value: &str) -> (r: &mut Self)
        ensures
            r@ == (WaitlistModel { shop: Some(value@), ..old(self)@ }),
            *final(self) == *final(r),
    {
        self.shop = Some(value.to_string());
        self
    }

    /// Sets `optional`.
    pub fn optional(&mut self, value: WaitlistOptions) -> (r: &mut Self)
        ensures
            r@ == (WaitlistModel { optional: Some(value), ..old(self)@ }),
            *final(self) == *final(r),
    {
        self.optional = Some(value);
        self
    }

    /// The endpoint, when every needed field is set and the fields go together.
    pub fn build(&self) -> (r: Result<Waitlist, BuilderError>)
        ensures
            r is Ok <==> self@.complete(),
            r is Ok ==> r->Ok_0@ == self@,
    {
        Ok(Waitlist {
            shop: copy_opt(&self.shop),
            optional: self.optional,
        })
    }
}

impl Endpoint for Waitlist {
    open spec fn spec_method(&self) -> Method {
        Method::Get
    }

    open spec fn spec_path(&self) -> Seq<char> {
        "v01/user/wait/all/"@
    }

    open spec fn spec_query(&self) -> Pairs {
        self@.query()
    }

    open spec fn spec_requires_oauth_token(&self) -> bool {
        true
    }

    fn method(&self) -> (r: Method) {
        Method::Get
    }

    fn endpoint(&self) -> (r: &'static str) {
        "v01/user/wait/all/"
    }

    fn query_pairs(&self) -> (r: Vec<(String, String)>) {
        let mut pairs: Vec<(String, String)> = Vec::new();
        push_opt(&mut pairs, "shop", &self.shop);
        match &self.optional {
            Some(v) => push_param(&mut pairs, "optional", v.as_str()),
            None => {},
        }
        assert(pairs_view(pairs@) =~= self@.query());
        pairs
    }

    fn body(&self) -> (r: Result<Option<(&'static str, Vec<u8>)>, BodyError>) {
        Ok(None)
    }

    fn requires_api_key(&self) -> (r: bool) {
        false
    }

    fn requires_oauth_token(&self) -> (r: bool) {
        true
    }
}

/// The fields of [`ImportWaitlistViaForm`] and of
/// [`ImportWaitlistViaFormBuilder`]; a field that was not set is `None` or empty.
pub struct ImportWaitlistViaFormModel {
    pub body: Option<Seq<char>>,
}

impl ImportWaitlistViaFormModel {
    /// The query parameters, in field order.
    pub open spec fn query(self) -> Pairs {
        seq![]
    }

    /// Every field that the endpoint needs is set.
    pub open spec fn complete(self) -> bool {
        self.body is Some
    }
}

/// Sends the user to the form that imports a waitlist, given as a JSON document.
#[derive(Debug)]
pub struct ImportWaitlistViaForm {
    body: String,
}

impl View for ImportWaitlistViaForm {
    type V = ImportWaitlistViaFormModel;

    closed spec fn view(&self) -> ImportWaitlistViaFormModel {
        ImportWaitlistViaFormModel {
            body: Some(self.body@),
        }
    }
}

impl Clone for ImportWaitlistViaForm {
    fn clone(&self) -> (r: Self)
        ensures
            r@ == self@,
    {
        ImportWaitlistViaForm {
            body: self.body.clone(),
        }
    }
}

/// Collects the fields of [`ImportWaitlistViaForm`] and checks them.
#[derive(Debug)]
pub struct ImportWaitlistViaFormBuilder {
    body: Option<String>,
}

impl View for ImportWaitlistViaFormBuilder {
    type V = ImportWaitlistViaFormModel;

    closed spec fn view(&self) -> ImportWaitlistViaFormModel {
        ImportWaitlistViaFormModel {
            body: opt_view(self.body),
        }
    }
}

impl Clone for ImportWaitlistViaFormBuilder {
    fn clone(&self) -> (r: Self)
        ensures
            r@ == self@,
    {
        ImportWaitlistViaFormBuilder {
            body: copy_opt(&self.body),
        }
    }
}

impl ImportWaitlistViaForm {
    /// A builder with no field set.
    pub fn builder() -> (r: ImportWaitlistViaFormBuilder)
        ensures
            r@ == (ImportWaitlistViaFormModel { body: None }),
    {
        ImportWaitlistViaFormBuilder {
            body: None,
        }
    }
}

impl ImportWaitlistViaFormBuilder {
    /// Sets `body`.
    pub fn body(&mut self, value: &str) -> (r: &mut Self)
        ensures
            r@ == (ImportWaitlistViaFormModel { body: Some(value@), ..old(self)@ }),
            *final(self) == *final(r),
    {
        self.body = Some(value.to_string());
        self
    }

    /// The endpoint, when every needed field is set and the fields go together.
    pub fn build(&self) -> (r: Result<ImportWaitlistViaForm, BuilderError>)
        ensures
            r is Ok <==> self@.complete(),
            r is Ok ==> r->Ok_0@ == self@,
            self@.body is None ==> r is Err && r->Err_0 is UninitializedField
                && r->Err_0->UninitializedField_0@ == "body"@,
    {
        let body = match &self.body {
            Some(v) => v.clone(),
            None => {
                return Err(BuilderError::UninitializedField("body"));
            },
        };
        Ok(ImportWaitlistViaForm {
            body,
        })
    }
}

impl Endpoint for ImportWaitlistViaForm {
    open spec fn spec_method(&self) -> Method {
        Method::Post
    }

    open spec fn spec_path(&self) -> Seq<char> {
        "waitlist/import/"@
    }

    open spec fn spec_query(&self) -> Pairs {
        self@.query()
    }

    open spec fn spec_body(&self) -> Option<(Seq<char>, Seq<u8>)> {
        Some(("application/x-www-form-urlencoded"@, upload_form(self@.body->0)))
    }

    fn method(&self) -> (r: Method) {
        Method::Post
    }

    fn endpoint(&self) -> (r: &'static str) {
        "waitlist/import/"
    }

    fn query_pairs(&self) -> (r: Vec<(String, String)>) {
        let mut pairs: Vec<(String, String)> = Vec::new();
        assert(pairs_view(pairs@) =~= self@.query());
        pairs
    }

    fn body(&self) -> (r: Result<Option<(&'static str, Vec<u8>)>, BodyError>) {
        match upload_form_body(self.body.as_str()) {
            Ok(bytes) => Ok(Some(("application/x-www-form-urlencoded", bytes))),
            Err(e) => Err(e),
        }
    }

    fn requires_api_key(&self) -> (r: bool) {
        false
    }

    fn requires_oauth_token(&self) -> (r: bool) {
        false
    }
}

/// The fields of [`ImportWaitlist`] and of
/// [`ImportWaitlistBuilder`]; a field that was not set is `None` or empty.
pub struct ImportWaitlistModel {
    pub file: Option<Seq<char>>,
}

impl ImportWaitlistModel {
    /// The query parameters, in field order.
    pub open spec fn query(self) -> Pairs {
        seq![]
    }

    /// Every field that the endpoint needs is set.
    pub open spec fn complete(self) -> bool {
        self.file is Some
    }
}

/// Imports a waitlist given as a JSON document.
#[derive(Debug)]
pub struct ImportWaitlist {
    file: String,
}

impl View for ImportWaitlist {
    type V = ImportWaitlistModel;

    closed spec fn view(&self) -> ImportWaitlistModel {
        ImportWaitlistModel {
            file: Some(self.file@),
        }
    }
}

impl Clone for ImportWaitlist {
    fn clone(&self) -> (r: Self)
        ensures
            r@ == self@,
    {
        ImportWaitlist {
            file: self.file.clone(),
        }
    }
}

/// Collects the fields of [`ImportWaitlist`] and checks them.
#[derive(Debug)]
pub struct ImportWaitlistBuilder {
    file: Option<String>,
}

impl View for ImportWaitlistBuilder {
    type V = ImportWaitlistModel;

    closed spec fn view(&self) -> ImportWaitlistModel {
        ImportWaitlistModel {
            file: opt_view(self.file),
        }
    }
}

impl Clone for ImportWaitlistBuilder {
    fn clone(&self) -> (r: Self)
        ensures
            r@ == self@,
    {
        ImportWaitlistBuilder {
            file: copy_opt(&self.file),
        }
    }
}

impl ImportWaitlist {
    /// A builder with no field set.
    pub fn builder() -> (r: ImportWaitlistBuilder)
        ensures
            r@ == (ImportWaitlistModel { file: None }),
    {
        ImportWaitlistBuilder {
            file: None,
        }
    }
}

impl ImportWaitlistBuilder {
    /// Sets `file`.
    pub fn file(&mut self, value: &str) -> (r: &mut Self)
        ensures
            r@ == (ImportWaitlistModel { file: Some(value@), ..old(self)@ }),
            *final(self) == *final(r),
    {
        self.file = Some(value.to_string());
        self
    }

    /// The endpoint, when every needed field is set and the fields go together.
    pub fn build(&self) -> (r: Result<ImportWaitlist, BuilderError>)
        ensures
            r is Ok <==> self@.complete(),
            r is Ok ==> r->Ok_0@ == self@,
            self@.file is None ==> r is Err && r->Err_0 is UninitializedField
                && r->Err_0->UninitializedField_0@ == "file"@,
    {
        let file = match &self.file {
            Some(v) => v.clone(),
            None => {
                return Err(BuilderError::UninitializedField("file"));
            },
        };
        Ok(ImportWaitlist {
            file,
        })
    }
}

impl Endpoint for ImportWaitlist {
    open spec fn spec_method(&self) -> Method {
        Method::Post
    }

    open spec fn spec_path(&self) -> Seq<char> {
        "v01/waitlist/import/"@
    }

    open spec fn spec_query(&self) -> Pairs {
        self@.query()
    }

    open spec fn spec_body(&self) -> Option<(Seq<char>, Seq<u8>)> {
        Some(("application/json"@, encode_utf8(self@.file->0)))
    }

    open spec fn spec_requires_oauth_token(&self) -> bool {
        true
    }

    fn method(&self) -> (r: Method) {
        Method::Post
    }

    fn endpoint(&self) -> (r: &'static str) {
        "v01/waitlist/import/"
    }

    fn query_pairs(&self) -> (r: Vec<(String, String)>) {
        let mut pairs: Vec<(String, String)> = Vec::new();
        assert(pairs_view(pairs@) =~= self@.query());
        pairs
    }

    fn body(&self) -> (r: Result<Option<(&'static str, Vec<u8>)>, BodyError>) {
        Ok(Some(("application/json", self.file.as_str().as_bytes_vec())))
    }

    fn requires_api_key(&self) -> (r: bool) {
        false
    }

    fn requires_oauth_token(&self) -> (r: bool) {
        true
    }
}

/// The fields of [`WaitlistRemove`] and of
/// [`WaitlistRemoveBuilder`]; a field that was not set is `None` or empty.
pub struct WaitlistRemoveModel {
    pub plains: Seq<Seq<char>>,
    pub shop: Option<Seq<char>>,
    pub ids: Seq<Seq<char>>,
}

impl WaitlistRemoveModel {
    /// The query parameters, in field order.
    pub open spec fn query(self) -> Pairs {
        list_param("plains"@, self.plains)
            + opt_param("shop"@, self.shop)
            + list_param("ids"@, self.ids)
    }

    /// Every field that the endpoint needs is set.
    pub open spec fn complete(self) -> bool {
        true
    }
}

/// Removes games from the waitlist.
#[derive(Debug)]
pub struct WaitlistRemove {
    plains: ValueSet,
    shop: Option<String>,
    ids: ValueSet,
}

impl View for WaitlistRemove {
    type V = WaitlistRemoveModel;

    closed spec fn view(&self) -> WaitlistRemoveModel {
        WaitlistRemoveModel {
            plains: self.plains@,
            shop: opt_view(self.shop),
            ids: self.ids@,
        }
    }
}

impl WaitlistRemove {
    /// Every value set it holds is in strictly increasing order.
    pub fn lemma_sorted(&self)
        ensures
            strictly_sorted(self@.plains),
            strictly_sorted(self@.ids),
    {
        self.plains.lemma_sorted();
        self.ids.lemma_sorted();
    }
}

impl Clone for WaitlistRemove {
    fn clone(&self) -> (r: Self)
        ensures
            r@ == self@,
    {
        WaitlistRemove {
            plains: self.plains.clone(),
            shop: copy_opt(&self.shop),
            ids: self.ids.clone(),
        }
    }
}

/// Collects the fields of [`WaitlistRemove`] and checks them.
#[derive(Debug)]
pub struct WaitlistRemoveBuilder {
    plains: ValueSet,
    shop: Option<String>,
    ids: ValueSet,
}

impl View for WaitlistRemoveBuilder {
    type V = WaitlistRemoveModel;

    closed spec fn view(&self) -> WaitlistRemoveModel {
        WaitlistRemoveModel {
            plains: self.plains@,
            shop: opt_view(self.shop),
            ids: self.ids@,
        }
    }
}

impl WaitlistRemoveBuilder {
    /// Every value set it holds is in strictly increasing order.
    pub fn lemma_sorted(&self)
        ensures
            strictly_sorted(self@.plains),
            strictly_sorted(self@.ids),
    {
        self.plains.lemma_sorted();
        self.ids.lemma_sorted();
    }
}

impl Clone for WaitlistRemoveBuilder {
    fn clone(&self) -> (r: Self)
        ensures
            r@ == self@,
    {
        WaitlistRemoveBuilder {
            plains: self.plains.clone(),
            shop: copy_opt(&self.shop),
            ids: self.ids.clone(),
        }
    }
}

impl WaitlistRemove {
    /// A builder with no field set.
    pub fn builder() -> (r: WaitlistRemoveBuilder)
        ensures
            r@ == (WaitlistRemoveModel { plains: seq![], shop: None, ids: seq![] }),
    {
        WaitlistRemoveBuilder {
            plains: ValueSet::new(),
            shop: None,
            ids: ValueSet::new(),
        }
    }
}

impl WaitlistRemoveBuilder {
    /// Adds one value to `plains`.
    pub fn plain(&mut self, plain: &str) -> (r: &mut Self)
        ensures
            r@.plains.to_set() == old(self)@.plains.to_set().insert(plain@),
            strictly_sorted(r@.plains),
            r@ == (WaitlistRemoveModel { plains: r@.plains, ..old(self)@ }),
            *final(self) == *final(r),
    {
        self.plains.insert(plain);
        self
    }

    /// Adds several values to `plains`.
    pub fn plains(&mut self, plains: &[&str]) -> (r: &mut Self)
        ensures
            r@.plains.to_set() == old(self)@.plains.to_set().union(
                strs_view(plains@).to_set(),
            ),
            strictly_sorted(r@.plains),
            r@ == (WaitlistRemoveModel { plains: r@.plains, ..old(self)@ }),
            *final(self) == *final(r),
    {
        let ghost added = strs_view(plains@);
        let mut i: usize = 0;
        assert(added.take(0).to_set() =~= Set::<Seq<char>>::empty());
        while i < plains.len()
            invariant
                i <= added.len(),
                added == strs_view(plains@),
                self@.plains.to_set() == old(self)@.plains.to_set().union(
                    added.take(i as int).to_set(),
                ),
                self@ == (WaitlistRemoveModel { plains: self@.plains, ..old(self)@ }),
            decreases added.len() - i,
        {
            proof {
                lemma_take_one_more(added, i as int);
            }
            self.plains.insert(plains[i]);
            i = i + 1;
        }
        assert(added.take(i as int) =~= added);
        self.plains.lemma_sorted();
        self
    }

    /// Sets `shop`.
    pub fn shop(&mut self, value: &str) -> (r: &mut Self)
        ensures
            r@ == (WaitlistRemoveModel { shop: Some(value@), ..old(self)@ }),
            *final(self) == *final(r),
    {
        self.shop = Some(value.to_string());
        self
    }

    /// Adds one value to `ids`.
    pub fn id(&mut self, id: &str) -> (r: &mut Self)
        ensures
            r@.ids.to_set() == old(self)@.ids.to_set().insert(id@),
            strictly_sorted(r@.ids),
            r@ == (WaitlistRemoveModel { ids: r@.ids, ..old(self)@ }),
            *final(self) == *final(r),
    {
        self.ids.insert(id);
        self
    }

    /// Adds several values to `ids`.
    pub fn ids(&mut self, ids: &[&str]) -> (r: &mut Self)
        ensures
            r@.ids.to_set() == old(self)@.ids.to_set().union(
                strs_view(ids@).to_set(),
            ),
            strictly_sorted(r@.ids),
            r@ == (WaitlistRemoveModel { ids: r@.ids, ..old(self)@ }),
            *final(self) == *final(r),
    {
        let ghost added = strs_view(ids@);
        let mut i: usize = 0;
        assert(added.take(0).to_set() =~= Set::<Seq<char>>::empty());
        while i < ids.len()
            invariant
                i <= added.len(),
                added == strs_view(ids@),
                self@.ids.to_set() == old(self)@.ids.to_set().union(
                    added.take(i as int).to_set(),
                ),
                self@ == (WaitlistRemoveModel { ids: self@.ids, ..old(self)@ }),
            decreases added.len() - i,
        {
            proof {
                lemma_take_one_more(added, i as int);
            }
            self.ids.insert(ids[i]);
            i = i + 1;
        }
        assert(added.take(i as int) =~= added);
        self.ids.lemma_sorted();
        self
    }

    /// The endpoint, when every needed field is set and the fields go together.
    pub fn build(&self) -> (r: Result<WaitlistRemove, BuilderError>)
        ensures
            r is Ok <==> self@.complete(),
            r is Ok ==> r->Ok_0@ == self@,
    {
        Ok(WaitlistRemove {
            plains: self.plains.clone(),
            shop: copy_opt(&self.shop),
            ids: self.ids.clone(),
        })
    }
}

impl Endpoint for WaitlistRemove {
    open spec fn spec_method(&self) -> Method {
        Method::Delete
    }

    open spec fn spec_path(&self) -> Seq<char> {
        "v02/user/wait/remove/"@
    }

    open spec fn spec_query(&self) -> Pairs {
        self@.query()
    }

    open spec fn spec_requires_oauth_token(&self) -> bool {
        true
    }

    fn method(&self) -> (r: Method) {
        Method::Delete
    }

    fn endpoint(&self) -> (r: &'static str) {
        "v02/user/wait/remove/"
    }

    fn query_pairs(&self) -> (r: Vec<(String, String)>) {
        let mut pairs: Vec<(String, String)> = Vec::new();
        serialize_as_csv(&mut pairs, "plains", &self.plains);
        push_opt(&mut pairs, "shop", &self.shop);
        serialize_as_csv(&mut pairs, "ids", &self.ids);
        assert(pairs_view(pairs@) =~= self@.query());
        pairs
    }

    fn body(&self) -> (r: Result<Option<(&'static str, Vec<u8>)>, BodyError>) {
        Ok(None)
    }

    fn requires_api_key(&self) -> (r: bool) {
        false
    }

    fn requires_oauth_token(&self) -> (r: bool) {
        true
    }
}

} // verus!
