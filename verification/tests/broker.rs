use rdpmib::broker::{
    auth_url_from, token_request_from,
    account_json, build_auth_url, get_accounts, req_cnf_json, token_request, Account,
    AcquireFlow, AcquireTokenSilentryPayload, AuthParameters, MethodError, PopParams, ReqCnf,
};

fn params(authority: &str, pop: Option<&str>) -> AuthParameters {
    AuthParameters {
        authority: authority.to_string(),
        client_id: "cid".to_string(),
        pop_params: pop.map(|k| PopParams { kid: k.to_string() }),
        redirect_uri: "ms-appx-web://x".to_string(),
        requested_scopes: vec!["a".to_string(), "b c".to_string()],
    }
}

const AUTHORITY: &str = "https://login.microsoftonline.com/common";

#[test]
fn get_accounts_reply() {
    assert_eq!(
        get_accounts(),
        "{\"accounts\":[{\"environment\":null,\"givenName\":null,\"homeAccountId\":null,\"localAccountId\":null,\"username\":\"DUMMY\",\"name\":null,\"passwordExpiry\":null,\"realm\":\"00000000-0000-0000-0000-000000000000\"}]}"
    );
}

#[test]
fn account_with_every_field() {
    let a = Account {
        environment: Some("env".to_string()),
        given_name: Some("Ann".to_string()),
        home_account_id: Some("h".to_string()),
        local_account_id: Some("l".to_string()),
        username: "ann@example.com".to_string(),
        name: Some("Ann \"A\"".to_string()),
        password_expiry: Some(3600),
        realm: "r".to_string(),
    };
    assert_eq!(
        account_json(&a),
        "{\"environment\":\"env\",\"givenName\":\"Ann\",\"homeAccountId\":\"h\",\"localAccountId\":\"l\",\"username\":\"ann@example.com\",\"name\":\"Ann \\\"A\\\"\",\"passwordExpiry\":3600,\"realm\":\"r\"}"
    );
}

#[test]
fn auth_url() {
    let url = build_auth_url(&params(AUTHORITY, Some("k1"))).unwrap();
    assert_eq!(
        url,
        "https://login.microsoftonline.com/common/oauth2/v2.0/authorize?client_id=cid&response_type=code&response_mode=query&scope=a+b+c&redirect_uri=ms-appx-web%3A%2F%2Fx"
    );
}

#[test]
fn auth_url_of_a_bad_authority() {
    let r = build_auth_url(&params("not a url", Some("k1")));
    assert!(matches!(r, Err(MethodError::InvalidArg(ref m)) if m == "relative URL without a base"));
}

#[test]
fn request_confirmation() {
    assert_eq!(req_cnf_json(&ReqCnf { kid: "k1".to_string() }), "{\"kid\":\"k1\"}");
    assert_eq!(req_cnf_json(&ReqCnf { kid: "a\"b".to_string() }), "{\"kid\":\"a\\\"b\"}");
}

#[test]
fn token_request_fields() {
    let t = token_request(&params(AUTHORITY, Some("k1")), "the-code", "k1").unwrap();
    assert_eq!(t.url, "https://login.microsoftonline.com/common/oauth2/v2.0/token");
    let expected: Vec<(String, String)> = [
        ("client_id", "cid"),
        ("grant_type", "authorization_code"),
        ("code", "the-code"),
        ("scope", "a b c"),
        ("req_cnf", "eyJraWQiOiJrMSJ9"),
        ("redirect_uri", "ms-appx-web://x"),
    ]
    .iter()
    .map(|(k, v)| (k.to_string(), v.to_string()))
    .collect();
    assert_eq!(t.form, expected);
}

#[test]
fn token_request_escapes_the_kid() {
    let t = token_request(&params(AUTHORITY, None), "c", "a\"b").unwrap();
    assert_eq!(t.form[4].1, "eyJraWQiOiJhXCJiIn0=");
}

#[test]
fn token_request_of_a_bad_authority() {
    let r = token_request(&params("http://[", Some("k1")), "c", "k1");
    assert!(matches!(r, Err(MethodError::Failed(ref m)) if m == "invalid IPv6 address"));
}

#[test]
fn acquire_without_pop_params() {
    let payload = AcquireTokenSilentryPayload { auth_parameters: params(AUTHORITY, None) };
    let r = AcquireFlow::start(payload);
    assert!(matches!(r, Err(MethodError::InvalidArg(ref m)) if m == "no pop_params"));
}

#[test]
fn acquire_with_bad_authority() {
    let payload = AcquireTokenSilentryPayload { auth_parameters: params("not a url", Some("k")) };
    let r = AcquireFlow::start(payload);
    assert!(matches!(r, Err(MethodError::InvalidArg(ref m)) if m == "relative URL without a base"));
}

#[test]
fn acquire_whole_flow() {
    let payload = AcquireTokenSilentryPayload { auth_parameters: params(AUTHORITY, Some("k1")) };
    let (flow, url) = AcquireFlow::start(payload).unwrap();
    assert_eq!(url, build_auth_url(&params(AUTHORITY, Some("k1"))).unwrap());
    assert_eq!(flow.kid, "k1");

    let t = flow.token_request(Ok("the-code".to_string())).unwrap();
    assert_eq!(t.form[2], ("code".to_string(), "the-code".to_string()));
    assert_eq!(t.form[4].1, "eyJraWQiOiJrMSJ9");

    assert_eq!(
        flow.reply("tok"),
        "{\"brokerTokenResponse\":{\"accessToken\":\"tok\",\"accessTokenType\":\"\",\"clientInfo\":\"\",\"expiresOn\":0,\"idToken\":\"\",\"grantedScopes\":\"a b c\"}}"
    );
}

#[test]
fn acquire_when_sign_in_fails() {
    let payload = AcquireTokenSilentryPayload { auth_parameters: params(AUTHORITY, Some("k1")) };
    let (flow, _) = AcquireFlow::start(payload).unwrap();
    let r = flow.token_request(Err("busy".to_string()));
    assert!(matches!(r, Err(MethodError::Failed(ref m)) if m == "busy"));
}

#[test]
fn token_url_is_normalized() {
    let t = token_request(&params("HTTPS://Login.MicrosoftOnline.COM:443/common", Some("k")), "c", "k").unwrap();
    assert_eq!(t.url, "https://login.microsoftonline.com/common/oauth2/v2.0/token");
}

#[test]
fn request_confirmation_in_base64_of_utf8() {
    let t = token_request(&params(AUTHORITY, None), "c", "é").unwrap();
    assert_eq!(t.form[4].1, "eyJraWQiOiLDqSJ9");
}

#[test]
fn auth_url_reparses_to_its_parameters() {
    let u = build_auth_url(&params(AUTHORITY, Some("k1"))).unwrap();
    let parsed = url::Url::parse(&u).unwrap();
    let pairs: Vec<(String, String)> = parsed.query_pairs().map(|(k, v)| (k.into_owned(), v.into_owned())).collect();
    let expected: Vec<(String, String)> = [
        ("client_id", "cid"),
        ("response_type", "code"),
        ("response_mode", "query"),
        ("scope", "a b c"),
        ("redirect_uri", "ms-appx-web://x"),
    ]
    .iter()
    .map(|(k, v)| (k.to_string(), v.to_string()))
    .collect();
    assert_eq!(pairs, expected);
    assert_eq!(parsed.origin().ascii_serialization(), "https://login.microsoftonline.com");
}

#[test]
fn url_errors_carry_the_parse_message() {
    let r = auth_url_from(Err(url::ParseError::EmptyHost));
    assert!(matches!(r, Err(MethodError::InvalidArg(ref m)) if m == "empty host"));
    assert_eq!(auth_url_from(Ok("https://x/".to_string())).unwrap(), "https://x/");
    let r = token_request_from(&params(AUTHORITY, Some("k")), "c", "k", Err(url::ParseError::RelativeUrlWithoutBase));
    assert!(matches!(r, Err(MethodError::Failed(ref m)) if m == "relative URL without a base"));
    let r = token_request_from(&params(AUTHORITY, Some("k")), "c", "k", Ok("https://t/".to_string())).unwrap();
    assert_eq!(r.url, "https://t/");
    assert_eq!(r.form.len(), 6);
}

#[test]
fn empty_authority_is_a_relative_url() {
    let r = build_auth_url(&params("", Some("k")));
    assert!(matches!(r, Err(MethodError::InvalidArg(ref m)) if m == "relative URL without a base"));
    let r = token_request(&params("", Some("k")), "c", "k");
    assert!(matches!(r, Err(MethodError::Failed(ref m)) if m == "relative URL without a base"));
}

#[test]
fn auth_url_begins_with_the_endpoint() {
    let u = build_auth_url(&params("HTTPS://Login.MicrosoftOnline.com/common", Some("k"))).unwrap();
    assert!(u.starts_with("https://login.microsoftonline.com/common/oauth2/v2.0/authorize?"));
}
