use std::cell::Cell;

use itad_api::api::error::ApiError;
use itad_api::api::game::Prices;
use itad_api::api::query::{
    decode_response, prepare_request, request_url, send, target_of, Client, PreparedRequest, RawResponse,
};
use itad_api::api::user::UserInfo;
use itad_api::api::endpoint::Method;
use itad_api::auth::{Auth, AuthError};
use itad_api::ItadApiBuilder;

struct Recorder {
    called: Cell<bool>,
}

impl Client for Recorder {
    type Error = String;

    fn rest(&self, _request: PreparedRequest) -> Result<RawResponse, ApiError<String>> {
        self.called.set(true);
        Ok(RawResponse { headers: vec![], status: 200, body: b"{\"data\": 1}".to_vec() })
    }
}

fn no_credentials() -> Auth {
    Auth { api_key: None, oauth_token: None }
}

#[test]
fn missing_api_key_fails_before_transport() {
    let prices = Prices::builder().plain("witcher3").build().unwrap();
    let client = Recorder { called: Cell::new(false) };
    let r = send(&prices, &no_credentials(), &client);
    assert!(matches!(r, Err(ApiError::Authentication { source: AuthError::MissingApiKey })));
    assert!(!client.called.get());
}

#[test]
fn missing_oauth_token_fails_before_transport() {
    let client = Recorder { called: Cell::new(false) };
    let auth = Auth { api_key: Some("k".to_string()), oauth_token: None };
    let r = send(&UserInfo::new(), &auth, &client);
    assert!(matches!(r, Err(ApiError::Authentication { source: AuthError::MissingOauthToken })));
    assert!(!client.called.get());
}

#[test]
fn transport_called_when_credentials_present() {
    let prices = Prices::builder().plain("witcher3").build().unwrap();
    let client = Recorder { called: Cell::new(false) };
    let auth = Auth { api_key: Some("k".to_string()), oauth_token: None };
    let r = send(&prices, &auth, &client);
    assert!(r.is_ok());
    assert!(client.called.get());
}

#[test]
fn end_to_end_price_list_request() {
    let prices = Prices::builder().plain("witcher3").region("us").build().unwrap();
    let auth = ItadApiBuilder::new().api_key("abc123").auth();
    let req = prepare_request::<Prices, String>(&prices, &auth).unwrap();
    assert_eq!(req.method, Method::Get);
    assert_eq!(req.path, "v01/game/prices/");
    assert_eq!(req.query, "plains=witcher3&region=us&key=abc123");
    assert!(req.body.is_none());
}

#[test]
fn oauth_token_appended() {
    let auth = Auth { api_key: None, oauth_token: Some("tok".to_string()) };
    let req = prepare_request::<UserInfo, String>(&UserInfo::new(), &auth).unwrap();
    assert_eq!(req.path, "v01/user/info");
    assert_eq!(req.query, "access_token=tok");
}

#[test]
fn envelope_data_unwrapped() {
    let rsp = RawResponse { headers: vec![], status: 200, body: br#"{"data": {"id": "plain-name"}}"#.to_vec() };
    let v = decode_response::<String>(&rsp).unwrap();
    let expected: serde_json::Value = serde_json::from_str(r#"{"id": "plain-name"}"#).unwrap();
    assert_eq!(v, expected);
}

#[test]
fn envelope_error_message() {
    let rsp = RawResponse { headers: vec![], status: 403, body: br#"{"message": "invalid key"}"#.to_vec() };
    match decode_response::<String>(&rsp) {
        Err(ApiError::ItadApi { msg }) => assert_eq!(msg, "invalid key"),
        other => panic!("unexpected {:?}", other),
    }
}

#[test]
fn envelope_unknown_error_and_bad_json() {
    let rsp = RawResponse { headers: vec![], status: 500, body: br#"{"error": 1}"#.to_vec() };
    let expected: serde_json::Value = serde_json::from_str(r#"{"error": 1}"#).unwrap();
    match decode_response::<String>(&rsp) {
        Err(ApiError::Unknown { obj }) => assert_eq!(obj, expected),
        other => panic!("unexpected {:?}", other),
    }
    let rsp = RawResponse { headers: vec![], status: 200, body: b"not json".to_vec() };
    assert!(matches!(decode_response::<String>(&rsp), Err(ApiError::Json { .. })));
    let rsp = RawResponse { headers: vec![], status: 200, body: br#"{"message": "no data"}"#.to_vec() };
    assert!(matches!(decode_response::<String>(&rsp), Err(ApiError::ItadApi { .. })));
}

#[test]
fn client_settings() {
    let mut b = ItadApiBuilder::new();
    assert_eq!(b.rest_url(), "https://api.isthereanydeal.com/");
    b.host("example.org").oauth_token("t");
    assert_eq!(b.rest_url(), "https://example.org/");
    let auth = b.auth();
    assert_eq!(auth.api_key, None);
    assert_eq!(auth.oauth_token, Some("t".to_string()));
}

#[test]
fn auth_appends_pairs() {
    let auth = Auth { api_key: Some("k".to_string()), oauth_token: None };
    let mut pairs = Vec::new();
    assert!(auth.append_api_key_query_param(&mut pairs).is_ok());
    assert_eq!(pairs, vec![("key".to_string(), "k".to_string())]);
    assert_eq!(auth.append_oauth_token_query_param(&mut pairs), Err(AuthError::MissingOauthToken));
    assert_eq!(pairs.len(), 1);
}

#[test]
fn request_url_joins_path_and_query() {
    let prices = Prices::builder().plain("witcher3").build().unwrap();
    let auth = Auth { api_key: Some("k".to_string()), oauth_token: None };
    let req = prepare_request::<Prices, String>(&prices, &auth).unwrap();
    let base = ItadApiBuilder::new().parse_rest_url().unwrap();
    let url = request_url::<String>(&base, &req).unwrap();
    assert_eq!(url.as_str(), "https://api.isthereanydeal.com/v01/game/prices/?plains=witcher3&key=k");
    let req = prepare_request::<UserInfo, String>(&UserInfo::new(), &Auth { api_key: None, oauth_token: Some("t".to_string()) }).unwrap();
    assert_eq!(target_of(&req), "v01/user/info?access_token=t");
}

#[test]
fn bad_host_does_not_parse() {
    assert!(ItadApiBuilder::new().host("exa mple").parse_rest_url().is_err());
}
