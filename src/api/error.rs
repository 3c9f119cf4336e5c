//! Errors of request construction and of the service's answers.
use vstd::prelude::*;

use super::params::opt_view;
use crate::auth::AuthError;

verus! {

#[verifier::external_type_specification]
#[verifier::external_body]
pub struct ExJsonError(serde_json::Error);

#[verifier::external_type_specification]
#[verifier::external_body]
pub struct ExJsonValue(serde_json::Value);

#[verifier::external_type_specification]
#[verifier::external_body]
pub struct ExUrlParseError(url::ParseError);

/// Errors that occur when creating query or body data.
#[derive(Debug)]
#[non_exhaustive]
#[allow(inconsistent_fields)]
pub enum BodyError {
    /// Serializing form parameters failed.
    UrlEncoded { source: serde_urlencoded::ser::Error },
    /// Serializing JSON failed.
    Json { source: serde_json::Error },
}

/// Errors that occur from API endpoints; `E` is the error of the transport.
#[derive(Debug)]
#[non_exhaustive]
#[allow(inconsistent_fields)]
pub enum ApiError<E> {
    /// Creating body data failed.
    Body { source: BodyError },
    /// The transport failed.
    Client { source: E },
    /// The answer was not JSON.
    Json { source: serde_json::Error },
    /// The URL failed to parse.
    Parse { source: url::ParseError },
    /// The service answered with an error message.
    ItadApi { msg: String },
    /// The service answered with an error of unknown shape.
    Unknown { obj: serde_json::Value },
    /// The payload did not have the shape of the expected type.
    DataType { source: serde_json::Error, typename: &'static str },
    /// A credential that the endpoint needs is missing.
    Authentication { source: AuthError },
}

/// Why a builder could not produce its endpoint.
#[derive(Debug, PartialEq, Eq)]
#[non_exhaustive]
pub enum BuilderError {
    /// A field that the endpoint needs was never set.
    UninitializedField(&'static str),
    /// The fields that were set do not go together.
    ValidationError(String),
}

/// The value at a JSON pointer inside a JSON value, as
/// `serde_json::Value::pointer` finds it.
pub uninterp spec fn json_at(v: serde_json::Value, p: Seq<char>) -> Option<serde_json::Value>;

/// The text of a JSON value when it is a string, as `serde_json::Value::as_str`
/// gives it.
pub uninterp spec fn json_text(v: serde_json::Value) -> Option<Seq<char>>;

/// The value behind an optional reference.
pub open spec fn deref_opt(o: Option<&serde_json::Value>) -> Option<serde_json::Value> {
    match o {
        Some(v) => Some(*v),
        None => None,
    }
}

/// The characters of an optional string slice.
pub open spec fn str_opt(o: Option<&str>) -> Option<Seq<char>> {
    match o {
        Some(s) => Some(s@),
        None => None,
    }
}

/// Relies on serde_json::Value::pointer: the value at a JSON pointer, if any;
/// it depends on the value and the pointer alone.
pub assume_specification<'a>[ serde_json::Value::pointer ](
    v: &'a serde_json::Value,
    pointer: &str,
) -> (r: Option<&'a serde_json::Value>)
    ensures
        deref_opt(r) == json_at(*v, pointer@),
;

/// Relies on serde_json::Value::as_str: the text of a JSON string, `None` for
/// any other value.
pub assume_specification<'a>[ serde_json::Value::as_str ](v: &'a serde_json::Value) -> (r: Option<
    &'a str,
>)
    ensures
        str_opt(r) == json_text(*v),
;

/// Relies on serde_json::Value's derived Clone: a copy, equal to the original.
pub assume_specification[ <serde_json::Value as Clone>::clone ](
    v: &serde_json::Value,
) -> (r: serde_json::Value)
    ensures
        r == *v,
;

/// The text of the string at `/message` of an answer, if there is one.
pub open spec fn message_of(answer: serde_json::Value) -> Option<Seq<char>> {
    match json_at(answer, "/message"@) {
        Some(m) => json_text(m),
        None => None,
    }
}

/// The error for an error answer of the service: its message when it has one,
/// else the whole answer.
pub open spec fn answer_error<E>(message: Option<String>, obj: serde_json::Value) -> ApiError<E> {
    match message {
        Some(m) => ApiError::ItadApi { msg: m },
        None => ApiError::Unknown { obj },
    }
}

/// `e` is the error that `answer` describes: the text at `/message` when it
/// is a string, else the whole answer.
pub open spec fn describes_answer<E>(e: ApiError<E>, answer: serde_json::Value) -> bool {
    match message_of(answer) {
        Some(m) => e is ItadApi && e->msg@ == m,
        None => e == ApiError::Unknown::<E> { obj: answer },
    }
}

/// The text of the string at `/message` of an answer, if there is one.
pub fn error_message(val: &serde_json::Value) -> (r: Option<String>)
    ensures
        opt_view(r) == message_of(*val),
{
    proof {
        reveal_strlit("/message");
    }
    match val.pointer("/message") {
        Some(m) => match m.as_str() {
            Some(s) => Some(s.to_string()),
            None => None,
        },
        None => None,
    }
}

impl<E> ApiError<E> {
    /// An error of the transport.
    pub fn client(source: E) -> (r: Self)
        ensures
            r == (ApiError::Client::<E> { source }),
    {
        ApiError::Client { source }
    }

    /// The error for an error answer of the service: its `message` text when it
    /// has one, else the whole answer.
    pub fn from_message(message: Option<String>, obj: serde_json::Value) -> (r: Self)
        ensures
            r == answer_error::<E>(message, obj),
    {
        match message {
            Some(msg) => ApiError::ItadApi { msg },
            None => ApiError::Unknown { obj },
        }
    }

    /// The error for an error answer of the service, read from the string at
    /// `/message` of the answer.
    pub fn from_itad_api(val: serde_json::Value) -> (r: Self)
        ensures
            describes_answer(r, val),
    {
        let message = error_message(&val);
        Self::from_message(message, val)
    }
}

} // verus!
