use lemmy_client::client_options::ClientOptionsInternal;
use lemmy_api_common::lemmy_db_schema::sensitive::SensitiveString;
use lemmy_api_common::person::Login;
use lemmy_client::lemmy_client_internal::{ClientWrapper, Fetch};
use lemmy_client::method::BodyEncoding;
use lemmy_client::{
    HeaderSet, LemmyError, LemmyForm, LemmyRequest, Method, OutgoingRequest, RequestBody,
};

struct Encoded<T>(T);

impl<T: serde::Serialize> LemmyForm for Encoded<T> {
    fn to_query(&self) -> Result<String, String> {
        serde_urlencoded::to_string(&self.0).map_err(|error| error.to_string())
    }

    fn to_json(&self) -> Result<String, String> {
        serde_json::to_string(&self.0).map_err(|error| error.to_string())
    }
}

fn pair(name: &str, value: &str) -> (String, String) {
    (name.to_string(), value.to_string())
}

fn options() -> ClientOptionsInternal {
    ClientOptionsInternal { domain: "lemmy.ml".to_string(), secure: true }
}

fn fields() -> Encoded<Vec<(&'static str, &'static str)>> {
    Encoded(vec![("id", "7"), ("q", "a b")])
}

fn same_request(a: &OutgoingRequest, b: &OutgoingRequest) {
    assert_eq!(a.method, b.method);
    assert_eq!(a.route, b.route);
    assert_eq!(a.query, b.query);
    assert_eq!(a.headers.entries(), b.headers.entries());
    assert_eq!(a.body, b.body);
    assert_eq!(a.url(), b.url());
}

#[test]
fn transports_keep_their_options() {
    assert_eq!(ClientWrapper::new(options()).options, options());
    assert_eq!(Fetch::new(options()).0, options());
}

#[test]
fn get_carries_the_body_as_query_string() {
    let client = ClientWrapper::new(options());
    let request = LemmyRequest { body: fields(), jwt: None };
    let planned = client.make_request(Method::Get, "search", request, &HeaderSet::new()).unwrap();
    assert_eq!(planned.method, Method::Get);
    assert_eq!(planned.route, "https://lemmy.ml/api/v4/search");
    assert_eq!(planned.query, "id=7&q=a+b");
    assert_eq!(planned.url(), "https://lemmy.ml/api/v4/search?id=7&q=a+b");
    assert_eq!(planned.body, RequestBody::Empty);
    assert_eq!(planned.headers.entries(), vec![pair("user-agent", "Lemmy-Client-rs/1.0.0")]);
}

#[test]
fn delete_carries_the_body_as_query_string() {
    let client = ClientWrapper::new(options());
    let request = LemmyRequest { body: fields(), jwt: Some("t") };
    let planned =
        client.make_request(Method::Delete, "account/media", request, &HeaderSet::new()).unwrap();
    assert_eq!(planned.method, Method::Delete);
    assert_eq!(planned.query, "id=7&q=a+b");
    assert_eq!(planned.body, RequestBody::Empty);
    assert_eq!(
        planned.headers.entries(),
        vec![pair("user-agent", "Lemmy-Client-rs/1.0.0"), pair("authorization", "Bearer t")]
    );
}

#[test]
fn post_carries_the_body_as_json_document() {
    let client = ClientWrapper::new(options());
    let request = LemmyRequest { body: fields(), jwt: Some("t") };
    let planned = client.make_request(Method::Post, "post", request, &HeaderSet::new()).unwrap();
    assert_eq!(planned.method, Method::Post);
    assert_eq!(planned.query, "");
    assert_eq!(planned.url(), "https://lemmy.ml/api/v4/post");
    assert_eq!(planned.body, RequestBody::Json("[[\"id\",\"7\"],[\"q\",\"a b\"]]".to_string()));
    assert_eq!(
        planned.headers.entries(),
        vec![
            pair("user-agent", "Lemmy-Client-rs/1.0.0"),
            pair("authorization", "Bearer t"),
            pair("content-type", "application/json"),
        ]
    );
}

#[test]
fn put_carries_the_body_as_json_document() {
    let client = ClientWrapper::new(options());
    let body = Encoded(Login {
        username_or_email: SensitiveString::from("ada".to_string()),
        password: SensitiveString::from("secret".to_string()),
        totp_2fa_token: None,
    });
    let planned = client
        .make_request(Method::Put, "post", LemmyRequest::from(body), &HeaderSet::new())
        .unwrap();
    assert_eq!(planned.method, Method::Put);
    assert_eq!(
        planned.body,
        RequestBody::Json("{\"username_or_email\":\"ada\",\"password\":\"secret\"}".to_string())
    );
    assert_eq!(planned.headers.get("authorization"), None);
}

#[test]
fn unit_body_is_an_empty_query_and_the_document_null() {
    let client = ClientWrapper::new(options());
    let planned =
        client.make_request(Method::Get, "site", LemmyRequest::empty(), &HeaderSet::new()).unwrap();
    assert_eq!(planned.query, "");
    assert_eq!(planned.url(), "https://lemmy.ml/api/v4/site");
    assert_eq!(planned.body, RequestBody::Empty);
    let planned = client
        .make_request(Method::Post, "admin/leave", LemmyRequest::empty(), &HeaderSet::new())
        .unwrap();
    assert_eq!(planned.body, RequestBody::Json("null".to_string()));
    assert_eq!(().to_query(), Ok(String::new()));
    assert_eq!(().to_json(), Ok("null".to_string()));
}

#[test]
fn body_that_cannot_be_encoded_is_an_unknown_error() {
    let client = ClientWrapper::new(options());
    let expected = serde_urlencoded::to_string(5u8).unwrap_err().to_string();
    let outcome =
        client.make_request(Method::Get, "site", LemmyRequest::from(Encoded(5u8)), &HeaderSet::new());
    match outcome {
        Err(LemmyError::Unknown(error)) => assert_eq!(error.message(), expected),
        other => panic!("{other:?}"),
    }
    let outcome =
        Fetch::new(options()).make_request(Method::Delete, "site", LemmyRequest::from(Encoded(5u8)), &HeaderSet::new());
    match outcome {
        Err(LemmyError::Unknown(error)) => assert_eq!(error.message(), expected),
        other => panic!("{other:?}"),
    }
    let planned = client
        .make_request(Method::Post, "site", LemmyRequest::from(Encoded(5u8)), &HeaderSet::new())
        .unwrap();
    assert_eq!(planned.body, RequestBody::Json("5".to_string()));
}

#[test]
fn headers_of_the_caller_go_first_and_the_credential_last() {
    let mut headers = HeaderSet::new();
    headers.insert("x-first".to_string(), "1".to_string());
    headers.insert("Authorization".to_string(), "Bearer kept".to_string());
    headers.insert("x-last".to_string(), "2".to_string());
    let client = ClientWrapper::new(options());
    let planned =
        client.make_request(Method::Get, "site", LemmyRequest::empty(), &headers).unwrap();
    assert_eq!(
        planned.headers.entries(),
        vec![
            pair("x-first", "1"),
            pair("Authorization", "Bearer kept"),
            pair("x-last", "2"),
            pair("user-agent", "Lemmy-Client-rs/1.0.0"),
        ]
    );
    let planned = client
        .make_request(Method::Get, "site", LemmyRequest::from_jwt(Some("fresh")), &headers)
        .unwrap();
    assert_eq!(planned.headers.get("authorization"), Some("Bearer fresh"));
    assert_eq!(planned.headers.len(), 4);
}

#[test]
fn both_transports_plan_the_same_request() {
    let mut headers = HeaderSet::new();
    headers.insert("User-Agent".to_string(), "mine/1".to_string());
    headers.insert("accept".to_string(), "*/*".to_string());
    for method in [Method::Get, Method::Post, Method::Put, Method::Delete] {
        for jwt in [None, Some("token")] {
            let native = ClientWrapper::new(options())
                .make_request(method, "comment", LemmyRequest { body: fields(), jwt }, &headers)
                .unwrap();
            let browser = Fetch::new(options())
                .make_request(method, "comment", LemmyRequest { body: fields(), jwt }, &headers)
                .unwrap();
            same_request(&native, &browser);
            assert_eq!(native.headers.get("user-agent"), Some("mine/1"));
        }
    }
}

#[test]
fn file_request_posts_the_bytes() {
    let bytes: &[u8] = &[137, 80, 78, 71];
    let client = ClientWrapper::new(options());
    let planned = client
        .make_file_request("site/icon", (), LemmyRequest { body: bytes, jwt: Some("t") }, &HeaderSet::new())
        .unwrap();
    assert_eq!(planned.method, Method::Post);
    assert_eq!(planned.url(), "https://lemmy.ml/api/v4/site/icon");
    assert_eq!(planned.body, RequestBody::Bytes(vec![137, 80, 78, 71]));
    assert_eq!(
        planned.headers.entries(),
        vec![pair("user-agent", "Lemmy-Client-rs/1.0.0"), pair("authorization", "Bearer t")]
    );
}

#[test]
fn file_request_carries_its_companion_as_query_string() {
    let bytes: &[u8] = &[1, 2, 3];
    let native = ClientWrapper::new(options())
        .make_file_request(
            "community/icon",
            Encoded(vec![("id", 12)]),
            LemmyRequest { body: bytes, jwt: None },
            &HeaderSet::new(),
        )
        .unwrap();
    assert_eq!(native.url(), "https://lemmy.ml/api/v4/community/icon?id=12");
    assert_eq!(native.body, RequestBody::Bytes(vec![1, 2, 3]));
    let browser = Fetch::new(options())
        .make_file_request(
            "community/icon",
            Encoded(vec![("id", 12)]),
            LemmyRequest { body: bytes, jwt: None },
            &HeaderSet::new(),
        )
        .unwrap();
    same_request(&native, &browser);
    let failed = Fetch::new(options()).make_file_request(
        "community/icon",
        Encoded("id"),
        LemmyRequest { body: bytes, jwt: None },
        &HeaderSet::new(),
    );
    assert!(matches!(failed, Err(LemmyError::Unknown(_))));
}

#[test]
fn fetch_query_is_the_route_and_the_encoded_form() {
    let fetch = Fetch::new(ClientOptionsInternal { domain: "lemmy.ml".to_string(), secure: false });
    assert_eq!(
        fetch.build_fetch_query("search", "id=7&q=a+b"),
        "http://lemmy.ml/api/v4/search?id=7&q=a+b"
    );
    assert_eq!(fetch.build_fetch_query("site", ""), "http://lemmy.ml/api/v4/site");
}

#[test]
fn prepared_request_places_the_encoded_body_by_the_verb() {
    let client = ClientWrapper::new(options());
    let headers = HeaderSet::new();
    let planned = client
        .prepare_request(Method::Get, "post", Ok("id=3".to_string()), Some("t"), &headers)
        .unwrap();
    assert_eq!(planned.url(), "https://lemmy.ml/api/v4/post?id=3");
    assert_eq!(planned.body, RequestBody::Empty);
    assert_eq!(planned.headers.get("content-type"), None);
    let planned = client
        .prepare_request(Method::Put, "post", Ok("{\"id\":3}".to_string()), None, &headers)
        .unwrap();
    assert_eq!(planned.url(), "https://lemmy.ml/api/v4/post");
    assert_eq!(planned.body, RequestBody::Json("{\"id\":3}".to_string()));
    assert_eq!(planned.headers.get("content-type"), Some("application/json"));
    for method in [Method::Get, Method::Post, Method::Put, Method::Delete] {
        let native = client.prepare_request(method, "x", Ok("a=b".to_string()), Some("j"), &headers);
        let browser = Fetch::new(options()).prepare_request(
            method,
            "x",
            Ok("a=b".to_string()),
            Some("j"),
            &headers,
        );
        same_request(&native.unwrap(), &browser.unwrap());
    }
}

#[test]
fn prepared_request_of_a_failed_encoding_is_an_unknown_error() {
    let headers = HeaderSet::new();
    let expected = Err(LemmyError::Unknown(lemmy_client::Error::new("no map".to_string())));
    let native = ClientWrapper::new(options())
        .prepare_request(Method::Get, "post", Err("no map".to_string()), None, &headers)
        .map(|planned| planned.url());
    assert_eq!(native, expected);
    let browser = Fetch::new(options())
        .prepare_request(Method::Post, "post", Err("no map".to_string()), None, &headers)
        .map(|planned| planned.url());
    assert_eq!(browser, expected);
    let bytes: &[u8] = &[1];
    let upload = ClientWrapper::new(options())
        .prepare_file_request(
            "site/icon",
            Err("no map".to_string()),
            LemmyRequest { body: bytes, jwt: None },
            &headers,
        )
        .map(|planned| planned.url());
    assert_eq!(upload, expected);
}

#[test]
fn methods_are_written_in_capitals() {
    assert_eq!(Method::Get.as_str(), "GET");
    assert_eq!(Method::Post.as_str(), "POST");
    assert_eq!(Method::Put.as_str(), "PUT");
    assert_eq!(Method::Delete.as_str(), "DELETE");
}

#[test]
fn get_and_delete_send_a_query_post_and_put_a_document() {
    assert_eq!(Method::Get.encoding(), BodyEncoding::Query);
    assert_eq!(Method::Delete.encoding(), BodyEncoding::Query);
    assert_eq!(Method::Post.encoding(), BodyEncoding::Json);
    assert_eq!(Method::Put.encoding(), BodyEncoding::Json);
}
