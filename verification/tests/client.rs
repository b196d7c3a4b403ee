use lemmy_api_common::lemmy_db_schema::sensitive::SensitiveString;
use lemmy_api_common::person::{Login, LoginResponse};
use lemmy_api_common::site::GetSiteResponse;
use lemmy_api_common::{LemmyErrorType, SuccessResponse};
use lemmy_client::client_options::ClientOptionsInternal;
use lemmy_client::{
    deserialize_response, ClientOptions, Error, LemmyClient, LemmyError, LemmyForm, LemmyRequest,
    LemmyResponse, LemmyResult, Method, RequestBody,
};

struct Json<T>(T);

impl<T: serde::Serialize> LemmyForm for Json<T> {
    fn to_query(&self) -> Result<String, String> {
        serde_urlencoded::to_string(&self.0).map_err(|error| error.to_string())
    }

    fn to_json(&self) -> Result<String, String> {
        serde_json::to_string(&self.0).map_err(|error| error.to_string())
    }
}

impl<T: serde::de::DeserializeOwned> LemmyResponse for Json<T> {
    fn from_json(raw: &str) -> Option<Self> {
        serde_json::from_str(raw).ok().map(Json)
    }
}

fn pair(name: &str, value: &str) -> (String, String) {
    (name.to_string(), value.to_string())
}

fn client() -> LemmyClient {
    LemmyClient::new(ClientOptions { domain: "lemmy.ml".to_string(), secure: true })
}

fn site_document() -> String {
    let site = "{\"id\":1,\"name\":\"Lemmy\",\"published\":\"2019-04-20T23:34:35Z\",\
        \"actor_id\":\"https://lemmy.ml/\",\"last_refreshed_at\":\"2024-01-01T00:00:00Z\",\
        \"inbox_url\":\"https://lemmy.ml/inbox\",\"public_key\":\"key\",\"instance_id\":1}";
    let local_site = "{\"id\":1,\"site_id\":1,\"site_setup\":true,\"enable_downvotes\":true,\
        \"enable_nsfw\":false,\"community_creation_admin_only\":false,\
        \"require_email_verification\":true,\"private_instance\":false,\
        \"default_theme\":\"browser\",\"default_post_listing_type\":\"Local\",\
        \"hide_modlog_mod_names\":true,\"application_email_admins\":false,\
        \"actor_name_max_length\":20,\"federation_enabled\":true,\"captcha_enabled\":true,\
        \"captcha_difficulty\":\"medium\",\"published\":\"2019-04-20T23:34:35Z\",\
        \"registration_mode\":\"RequireApplication\",\"reports_email_admins\":false,\
        \"federation_signed_fetch\":false,\"default_post_listing_mode\":\"List\",\
        \"default_sort_type\":\"Active\"}";
    let rate_limit = "{\"local_site_id\":1,\"message\":180,\"message_per_second\":60,\
        \"post\":6,\"post_per_second\":600,\"register\":3,\"register_per_second\":3600,\
        \"image\":6,\"image_per_second\":3600,\"comment\":6,\"comment_per_second\":600,\
        \"search\":60,\"search_per_second\":600,\"published\":\"2019-04-20T23:34:35Z\",\
        \"import_user_settings\":1,\"import_user_settings_per_second\":86400}";
    let counts = "{\"site_id\":1,\"users\":10,\"posts\":20,\"comments\":30,\"communities\":4,\
        \"users_active_day\":1,\"users_active_week\":2,\"users_active_month\":3,\
        \"users_active_half_year\":4}";
    format!(
        "{{\"site_view\":{{\"site\":{site},\"local_site\":{local_site},\
         \"local_site_rate_limit\":{rate_limit},\"counts\":{counts}}},\"admins\":[],\
         \"version\":\"0.19.20\",\"all_languages\":[],\"discussion_languages\":[],\
         \"taglines\":[],\"custom_emojis\":[],\"blocked_urls\":[]}}"
    )
}

#[test]
fn new_client_has_its_options_and_no_header() {
    let client = client();
    assert!(client.secure());
    assert_eq!(client.domain(), "lemmy.ml");
    assert_eq!(
        client.options(),
        &ClientOptionsInternal { domain: "lemmy.ml".to_string(), secure: true }
    );
    assert!(client.headers().is_empty());
    let plain = LemmyClient::new(ClientOptions { domain: "localhost".to_string(), secure: false });
    assert!(!plain.secure());
    assert_eq!(plain.domain(), "localhost");
}

#[test]
fn options_are_kept_as_they_are_given() {
    let options = ClientOptions { domain: "lemmy.world".to_string(), secure: false };
    assert_eq!(
        ClientOptionsInternal::from(options.clone()),
        ClientOptionsInternal { domain: "lemmy.world".to_string(), secure: false }
    );
    assert_eq!(options, ClientOptions { domain: "lemmy.world".to_string(), secure: false });
}

#[test]
fn headers_mut_changes_what_goes_out() {
    let mut client = client();
    client.headers_mut().insert("accept-language".to_string(), "de".to_string());
    client.headers_mut().insert("User-Agent".to_string(), "app/3".to_string());
    assert_eq!(
        client.headers().entries(),
        vec![pair("accept-language", "de"), pair("User-Agent", "app/3")]
    );
    let planned = client.get_site(LemmyRequest::empty()).unwrap();
    assert_eq!(
        planned.headers.entries(),
        vec![pair("accept-language", "de"), pair("User-Agent", "app/3")]
    );
}

#[test]
fn set_jwt_stores_the_bearer_credential() {
    let mut client = client();
    assert!(client.set_jwt("abc.def").is_ok());
    assert_eq!(client.headers().get("Authorization"), Some("Bearer abc.def"));
    assert_eq!(client.headers().entries(), vec![pair("authorization", "Bearer abc.def")]);
    assert!(client.set_jwt("second").is_ok());
    assert_eq!(client.headers().entries(), vec![pair("authorization", "Bearer second")]);
    let planned = client.get_site(LemmyRequest::empty()).unwrap();
    assert_eq!(planned.headers.get("authorization"), Some("Bearer second"));
}

#[test]
fn set_jwt_refuses_what_cannot_stand_in_a_header() {
    for bad in ["line\nbreak", "carriage\rreturn", "nul\0", "del\u{7f}", "\u{1f}"] {
        let mut client = client();
        client.headers_mut().insert("Authorization".to_string(), "Bearer old".to_string());
        assert!(client.set_jwt(bad).is_err());
        assert_eq!(client.headers().entries(), vec![pair("Authorization", "Bearer old")]);
    }
}

#[test]
fn set_jwt_takes_tabulator_and_characters_beyond_ascii() {
    for good in ["", "with\ttab", "with space", "caf\u{e9}", "\u{80}", "~", "\u{10348}"] {
        let mut client = client();
        assert!(client.set_jwt(good).is_ok());
        let expected = format!("Bearer {good}");
        assert_eq!(client.headers().get("authorization"), Some(expected.as_str()));
    }
}

#[test]
fn clear_jwt_removes_the_credential_only() {
    let mut client = client();
    client.headers_mut().insert("x-a".to_string(), "1".to_string());
    client.set_jwt("abc").unwrap();
    client.headers_mut().insert("x-b".to_string(), "2".to_string());
    client.clear_jwt();
    assert_eq!(client.headers().entries(), vec![pair("x-a", "1"), pair("x-b", "2")]);
    client.clear_jwt();
    assert_eq!(client.headers().len(), 2);
}

#[test]
fn clear_jwt_finds_the_credential_in_any_case() {
    let mut client = client();
    client.headers_mut().insert("AUTHORIZATION".to_string(), "Bearer x".to_string());
    client.clear_jwt();
    assert!(client.headers().is_empty());
}

#[test]
fn create_request_builder_begins_a_request() {
    let mut client = client();
    client.headers_mut().insert("x-a".to_string(), "1".to_string());
    let request = client.create_request_builder(Method::Delete, "image");
    assert_eq!(request.method, Method::Delete);
    assert_eq!(request.url(), "https://lemmy.ml/api/v4/image");
    assert_eq!(request.body, RequestBody::Empty);
    assert_eq!(
        request.headers.entries(),
        vec![pair("x-a", "1"), pair("user-agent", "Lemmy-Client-rs/1.0.0")]
    );
}

#[test]
fn get_site_is_one_get_without_body_or_query() {
    let client = client();
    let planned = client.get_site(LemmyRequest::empty()).unwrap();
    assert_eq!(planned.method, Method::Get);
    assert_eq!(planned.url(), "https://lemmy.ml/api/v4/site");
    assert_eq!(planned.route, "https://lemmy.ml/api/v4/site");
    assert_eq!(planned.query, "");
    assert_eq!(planned.body, RequestBody::Empty);
    assert_eq!(planned.headers.entries(), vec![pair("user-agent", "Lemmy-Client-rs/1.0.0")]);

    let answer: LemmyResult<Json<GetSiteResponse>> = deserialize_response(&site_document());
    let Json(site) = answer.ok().unwrap();
    assert_eq!(site.version, "0.19.20");
    assert_eq!(site.site_view.site.name, "Lemmy");
    assert_eq!(site.site_view.counts.users, 10);
    assert!(site.admins.is_empty());
    assert!(site.my_user.is_none());
}

#[test]
fn login_is_one_post_with_the_fields_as_json() {
    let client = client();
    let form = Login {
        username_or_email: SensitiveString::from("ada".to_string()),
        password: SensitiveString::from("correct horse".to_string()),
        totp_2fa_token: None,
    };
    let planned = client.login(LemmyRequest::from(Json(form))).unwrap();
    assert_eq!(planned.method, Method::Post);
    assert_eq!(planned.url(), "https://lemmy.ml/api/v4/account/auth/login");
    assert_eq!(
        planned.body,
        RequestBody::Json("{\"username_or_email\":\"ada\",\"password\":\"correct horse\"}".to_string())
    );
    assert_eq!(planned.headers.get("authorization"), None);
    assert_eq!(planned.headers.get("content-type"), Some("application/json"));

    let answer: LemmyResult<Json<LoginResponse>> = deserialize_response(
        "{\"jwt\":\"eyJ0.eyJz.c2ln\",\"registration_created\":false,\"verify_email_sent\":false}",
    );
    let Json(login) = answer.ok().unwrap();
    assert_eq!(login.jwt.map(|jwt| jwt.into_inner()), Some("eyJ0.eyJz.c2ln".to_string()));
}

#[test]
fn login_with_wrong_password_is_the_error_of_the_remote() {
    let answer: LemmyResult<Json<LoginResponse>> =
        deserialize_response("{\"error\":\"incorrect_login\"}");
    assert!(matches!(answer, Err(LemmyError::Api(LemmyErrorType::IncorrectLogin))));
}

#[test]
fn logout_removes_the_credential_after_success() {
    let mut client = client();
    client.headers_mut().insert("x-kept".to_string(), "1".to_string());
    client.set_jwt("abc").unwrap();
    let planned = client.logout_request(LemmyRequest::empty()).unwrap();
    assert_eq!(planned.method, Method::Post);
    assert_eq!(planned.url(), "https://lemmy.ml/api/v4/account/auth/logout");
    assert_eq!(planned.headers.get("authorization"), Some("Bearer abc"));
    assert_eq!(planned.body, RequestBody::Json("null".to_string()));

    let answer: LemmyResult<Json<SuccessResponse>> = deserialize_response("{\"success\":true}");
    let handed = client.logout(answer);
    assert!(handed.ok().unwrap().0.success);
    assert_eq!(client.headers().get("Authorization"), None);
    assert!(!client.headers().contains_key("authorization"));
    assert_eq!(client.headers().entries(), vec![pair("x-kept", "1")]);
}

#[test]
fn logout_without_a_credential_leaves_the_headers() {
    let mut client = client();
    client.headers_mut().insert("x-kept".to_string(), "1".to_string());
    let handed = client.logout(Ok::<u8, LemmyError>(1));
    assert_eq!(handed, Ok(1));
    assert_eq!(client.headers().entries(), vec![pair("x-kept", "1")]);
}

#[test]
fn logout_keeps_the_credential_after_failure() {
    let mut client = client();
    client.set_jwt("abc").unwrap();
    let failed: LemmyResult<u8> = Err(LemmyError::Api(LemmyErrorType::NotLoggedIn));
    assert_eq!(client.logout(failed), Err(LemmyError::Api(LemmyErrorType::NotLoggedIn)));
    assert_eq!(client.headers().get("authorization"), Some("Bearer abc"));
    let failed: LemmyResult<u8> = Err(LemmyError::Unknown(Error::new("timeout".to_string())));
    assert_eq!(client.logout(failed), Err(LemmyError::Unknown(Error::new("timeout".to_string()))));
    assert_eq!(client.headers().get("authorization"), Some("Bearer abc"));
}

#[test]
fn credential_of_the_call_goes_out_as_bearer() {
    let mut client = client();
    let planned = client.get_site(LemmyRequest::from_jwt(Some("per-call"))).unwrap();
    assert_eq!(planned.headers.get("Authorization"), Some("Bearer per-call"));
    client.set_jwt("stored").unwrap();
    let planned = client.get_site(LemmyRequest::from_jwt(Some("per-call"))).unwrap();
    assert_eq!(planned.headers.get("Authorization"), Some("Bearer per-call"));
    let planned = client.get_site(LemmyRequest::from_jwt(None)).unwrap();
    assert_eq!(planned.headers.get("Authorization"), Some("Bearer stored"));
}

#[test]
fn form_goes_round_through_query_string_and_json() {
    let form = Login {
        username_or_email: SensitiveString::from("a&b=c".to_string()),
        password: SensitiveString::from("p w".to_string()),
        totp_2fa_token: Some("123456".to_string()),
    };
    let client = client();
    let planned = client.make_request(Method::Get, "x", LemmyRequest::from(Json(form.clone()))).unwrap();
    assert_eq!(planned.query, "username_or_email=a%26b%3Dc&password=p+w&totp_2fa_token=123456");
    let back: Login = serde_urlencoded::from_str(&planned.query).unwrap();
    assert_eq!(back, form);
    let planned = client.make_request(Method::Post, "x", LemmyRequest::from(Json(form.clone()))).unwrap();
    let document = match planned.body {
        RequestBody::Json(document) => document,
        other => panic!("{other:?}"),
    };
    let Json(back) = Json::<Login>::from_json(&document).unwrap();
    assert_eq!(back, form);
}

#[test]
fn upload_posts_the_file_to_its_route() {
    let client = client();
    let bytes: &[u8] = b"GIF89a";
    let planned = client.upload_site_banner(LemmyRequest { body: bytes, jwt: Some("t") }).unwrap();
    assert_eq!(planned.method, Method::Post);
    assert_eq!(planned.url(), "https://lemmy.ml/api/v4/site/banner");
    assert_eq!(planned.body, RequestBody::Bytes(b"GIF89a".to_vec()));
    assert_eq!(planned.headers.get("authorization"), Some("Bearer t"));
    let planned = client
        .upload_community_icon(Json(vec![("id", 5)]), LemmyRequest { body: bytes, jwt: None })
        .unwrap();
    assert_eq!(planned.url(), "https://lemmy.ml/api/v4/community/icon?id=5");
    let planned =
        client.make_file_request("account/avatar", (), LemmyRequest { body: bytes, jwt: None }).unwrap();
    assert_eq!(planned.url(), "https://lemmy.ml/api/v4/account/avatar");
}

#[test]
fn envelope_is_built_from_a_body_or_a_credential() {
    let empty = LemmyRequest::empty();
    assert_eq!(empty.body, ());
    assert_eq!(empty.jwt, None);
    let with_jwt = LemmyRequest::from_jwt(Some("j"));
    assert_eq!(with_jwt.jwt, Some("j"));
    let from_body = LemmyRequest::from(7u8);
    assert_eq!(from_body.body, 7);
    assert_eq!(from_body.jwt, None);
    let into: LemmyRequest<&str> = "body".into();
    assert_eq!(into.body, "body");
    assert_eq!(into.jwt, None);
}
