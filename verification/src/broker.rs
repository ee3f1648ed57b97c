//! The identity broker's methods: `getAccounts` and `acquireTokenSilently`.
//!
//! A sign-in asks the broker for a token. The broker builds the
//! authorization URL, has the user sign in there (outside the library, see
//! `authcode`), exchanges the authorization code for an access token at the
//! authority's token endpoint (outside the library) and answers with a JSON
//! reply. This module holds each of those decisions and the JSON texts of
//! the replies.

use crate::outside::{
    law_plain_text_is_quoted_as_is,
    plain_address,
    url_origin_text, url_query_pairs,
    base64_encode, base64_text, json_string_text, parse_url, parse_url_with_params, url_text,
    url_with_params_text,
};
use crate::text::{
    law_join_appends, law_join_length, total_len,
    decimal, decimal_text, join_strings, join_with, json_opt_string, json_opt_string_text,
    json_opt_u32, json_opt_u32_text, json_str,
};
use vstd::prelude::*;
use vstd::string::to_string_from_display_ensures;

verus! {

/// An error answered to a D-Bus method call.
#[derive(Debug)]
pub enum MethodError {
    /// `org.freedesktop.DBus.Error.Failed`, with this message.
    Failed(String),
    /// `org.freedesktop.DBus.Error.InvalidArgs`, about this argument.
    InvalidArg(String),
}

/// An account that the broker reports.
#[derive(Debug)]
pub struct Account {
    pub environment: Option<String>,
    pub given_name: Option<String>,
    pub home_account_id: Option<String>,
    pub local_account_id: Option<String>,
    pub username: String,
    pub name: Option<String>,
    pub password_expiry: Option<u32>,
    pub realm: String,
}

/// The reply of `getAccounts`.
#[derive(Debug)]
pub struct GetAccountsReply {
    pub accounts: Vec<Account>,
}

/// The proof-of-possession parameters of a token request.
#[derive(Debug)]
pub struct PopParams {
    pub kid: String,
}

/// The parameters of a token request.
#[derive(Debug)]
pub struct AuthParameters {
    pub authority: String,
    pub client_id: String,
    pub pop_params: Option<PopParams>,
    pub redirect_uri: String,
    pub requested_scopes: Vec<String>,
}

/// The payload of `acquireTokenSilently`.
#[derive(Debug)]
pub struct AcquireTokenSilentryPayload {
    pub auth_parameters: AuthParameters,
}

/// The token of a reply of `acquireTokenSilently`.
#[derive(Debug)]
pub struct BrokerTokenResponse {
    pub access_token: String,
    pub access_token_type: String,
    pub client_info: String,
    pub expires_on: u32,
    pub id_token: String,
    pub granted_scopes: String,
}

/// The reply of `acquireTokenSilently`.
#[derive(Debug)]
pub struct AcquireTokenSilentryReply {
    pub broker_token_response: BrokerTokenResponse,
}

/// The request confirmation sent with a token request: the key id of the
/// proof-of-possession key.
#[derive(Debug)]
pub struct ReqCnf {
    pub kid: String,
}

/// A request to the token endpoint: the URL to post to and the fields of
/// the form, in order.
#[derive(Debug)]
pub struct TokenRequest {
    pub url: String,
    pub form: Vec<(String, String)>,
}

// ---------------------------------------------------------------------------
// JSON texts of the replies

/// The JSON text of an account.
pub open spec fn account_text(a: Account) -> Seq<char> {
    "{\"environment\":"@ + json_opt_string_text(a.environment.deep_view()) + ",\"givenName\":"@
        + json_opt_string_text(a.given_name.deep_view()) + ",\"homeAccountId\":"@
        + json_opt_string_text(a.home_account_id.deep_view()) + ",\"localAccountId\":"@
        + json_opt_string_text(a.local_account_id.deep_view()) + ",\"username\":"@
        + json_string_text(a.username@) + ",\"name\":"@ + json_opt_string_text(
        a.name.deep_view(),
    ) + ",\"passwordExpiry\":"@ + json_opt_u32_text(a.password_expiry) + ",\"realm\":"@
        + json_string_text(a.realm@) + "}"@
}

/// The JSON text of a `getAccounts` reply.
pub open spec fn get_accounts_reply_text(r: GetAccountsReply) -> Seq<char> {
    "{\"accounts\":["@ + join_with(r.accounts@.map_values(|a: Account| account_text(a)), ","@)
        + "]}"@
}

/// The JSON text of a token.
pub open spec fn broker_token_response_text(t: BrokerTokenResponse) -> Seq<char> {
    "{\"accessToken\":"@ + json_string_text(t.access_token@) + ",\"accessTokenType\":"@
        + json_string_text(t.access_token_type@) + ",\"clientInfo\":"@ + json_string_text(
        t.client_info@,
    ) + ",\"expiresOn\":"@ + decimal_text(t.expires_on as nat) + ",\"idToken\":"@
        + json_string_text(t.id_token@) + ",\"grantedScopes\":"@ + json_string_text(
        t.granted_scopes@,
    ) + "}"@
}

/// The JSON text of an `acquireTokenSilently` reply.
pub open spec fn acquire_reply_text(r: AcquireTokenSilentryReply) -> Seq<char> {
    "{\"brokerTokenResponse\":"@ + broker_token_response_text(r.broker_token_response) + "}"@
}

/// The JSON text of a request confirmation.
pub open spec fn req_cnf_text(kid: Seq<char>) -> Seq<char> {
    "{\"kid\":"@ + json_string_text(kid) + "}"@
}

/// Writes an account as JSON.
pub fn account_json(a: &Account) -> (r: String)
    ensures
        r@ == account_text(*a),
{
    let mut r = String::from_str("{\"environment\":");
    r.append(json_opt_string(&a.environment).as_str());
    r.append(",\"givenName\":");
    r.append(json_opt_string(&a.given_name).as_str());
    r.append(",\"homeAccountId\":");
    r.append(json_opt_string(&a.home_account_id).as_str());
    r.append(",\"localAccountId\":");
    r.append(json_opt_string(&a.local_account_id).as_str());
    r.append(",\"username\":");
    r.append(json_str(a.username.as_str()).as_str());
    r.append(",\"name\":");
    r.append(json_opt_string(&a.name).as_str());
    r.append(",\"passwordExpiry\":");
    r.append(json_opt_u32(a.password_expiry).as_str());
    r.append(",\"realm\":");
    r.append(json_str(a.realm.as_str()).as_str());
    r.append("}");
    r
}

/// Writes a `getAccounts` reply as JSON.
pub fn get_accounts_reply_json(reply: &GetAccountsReply) -> (r: String)
    ensures
        r@ == get_accounts_reply_text(*reply),
{
    let mut items: Vec<String> = Vec::new();
    let n: usize = reply.accounts.len();
    for i in 0..n
        invariant
            n == reply.accounts.len(),
            items.deep_view() =~= reply.accounts@.take(i as int).map_values(
                |a: Account| account_text(a),
            ),
    {
        let ghost prev = items.deep_view();
        let ghost prev_items = items@;
        let j = account_json(&reply.accounts[i]);
        items.push(j);
        assert(items.deep_view() =~= prev.push(j@)) by {
            assert(items@ == prev_items.push(j));
            assert forall|k: int| 0 <= k < items@.len() implies items.deep_view()[k] == prev.push(
                j@,
            )[k] by {
            }
        }
        assert(reply.accounts@.take((i + 1) as int) =~= reply.accounts@.take(i as int).push(
            reply.accounts@[i as int],
        ));
        assert(reply.accounts@.take((i + 1) as int).map_values(|a: Account| account_text(a))
            =~= reply.accounts@.take(i as int).map_values(|a: Account| account_text(a)).push(
            account_text(reply.accounts@[i as int]),
        ));
    }
    assert(reply.accounts@.take(n as int) =~= reply.accounts@);
    let mut r = String::from_str("{\"accounts\":[");
    r.append(join_strings(&items, ",").as_str());
    r.append("]}");
    r
}

/// Writes a token as JSON.
pub fn broker_token_response_json(t: &BrokerTokenResponse) -> (r: String)
    ensures
        r@ == broker_token_response_text(*t),
{
    let mut r = String::from_str("{\"accessToken\":");
    r.append(json_str(t.access_token.as_str()).as_str());
    r.append(",\"accessTokenType\":");
    r.append(json_str(t.access_token_type.as_str()).as_str());
    r.append(",\"clientInfo\":");
    r.append(json_str(t.client_info.as_str()).as_str());
    r.append(",\"expiresOn\":");
    r.append(decimal(t.expires_on).as_str());
    r.append(",\"idToken\":");
    r.append(json_str(t.id_token.as_str()).as_str());
    r.append(",\"grantedScopes\":");
    r.append(json_str(t.granted_scopes.as_str()).as_str());
    r.append("}");
    r
}

/// Writes an `acquireTokenSilently` reply as JSON.
pub fn acquire_reply_json(reply: &AcquireTokenSilentryReply) -> (r: String)
    ensures
        r@ == acquire_reply_text(*reply),
{
    let mut r = String::from_str("{\"brokerTokenResponse\":");
    r.append(broker_token_response_json(&reply.broker_token_response).as_str());
    r.append("}");
    r
}

/// Writes a request confirmation as JSON.
pub fn req_cnf_json(c: &ReqCnf) -> (r: String)
    ensures
        r@ == req_cnf_text(c.kid@),
{
    let mut r = String::from_str("{\"kid\":");
    r.append(json_str(c.kid.as_str()).as_str());
    r.append("}");
    r
}


// ---------------------------------------------------------------------------
// getAccounts

/// The realm of the account that `getAccounts` reports.
pub const DUMMY_REALM: &'static str = "00000000-0000-0000-0000-000000000000";

/// The user name of the account that `getAccounts` reports.
pub const DUMMY_USERNAME: &'static str = "DUMMY";

/// The JSON text of the `getAccounts` reply: one account, with only its user
/// name (`DUMMY`) and its realm (all zeros) set.
pub open spec fn get_accounts_text() -> Seq<char> {
    "{\"accounts\":[{\"environment\":null,\"givenName\":null,\"homeAccountId\":null,\"localAccountId\":null,\"username\":"@
        + json_string_text(DUMMY_USERNAME@)
        + ",\"name\":null,\"passwordExpiry\":null,\"realm\":"@ + json_string_text(DUMMY_REALM@)
        + "}]}"@
}

/// The answer to `getAccounts`: one dummy account, whatever the arguments.
pub fn get_accounts() -> (r: String)
    ensures
        r@ == get_accounts_text(),
{
    let account = Account {
        environment: None,
        given_name: None,
        home_account_id: None,
        local_account_id: None,
        username: String::from_str(DUMMY_USERNAME),
        name: None,
        password_expiry: None,
        realm: String::from_str(DUMMY_REALM),
    };
    let mut accounts = Vec::new();
    accounts.push(account);
    let reply = GetAccountsReply { accounts };
    let r = get_accounts_reply_json(&reply);
    proof {
        let texts = reply.accounts@.map_values(|a: Account| account_text(a));
        assert(join_with(texts, ","@) == texts[0]);
        reveal_strlit("{\"accounts\":[");
        reveal_strlit("{\"environment\":");
        reveal_strlit(",\"givenName\":");
        reveal_strlit(",\"homeAccountId\":");
        reveal_strlit(",\"localAccountId\":");
        reveal_strlit(",\"username\":");
        reveal_strlit(",\"name\":");
        reveal_strlit(",\"passwordExpiry\":");
        reveal_strlit(",\"realm\":");
        reveal_strlit("}");
        reveal_strlit("]}");
        reveal_strlit("null");
        reveal_strlit(
            "{\"accounts\":[{\"environment\":null,\"givenName\":null,\"homeAccountId\":null,\"localAccountId\":null,\"username\":",
        );
        reveal_strlit(",\"name\":null,\"passwordExpiry\":null,\"realm\":");
        reveal_strlit("}]}");
        assert(r@ =~= get_accounts_text());
    }
    r
}

// ---------------------------------------------------------------------------
// acquireTokenSilently

/// The address of the authority's authorization endpoint.
pub open spec fn authorize_base(authority: Seq<char>) -> Seq<char> {
    authority + "/oauth2/v2.0/authorize"@
}

/// The address of the authority's token endpoint.
pub open spec fn token_base(authority: Seq<char>) -> Seq<char> {
    authority + "/oauth2/v2.0/token"@
}

/// The requested scopes, separated by spaces.
pub open spec fn scope_text(p: AuthParameters) -> Seq<char> {
    join_with(p.requested_scopes.deep_view(), " "@)
}

/// The query parameters of the authorization URL, in order.
pub open spec fn authorize_params(p: AuthParameters) -> Seq<(Seq<char>, Seq<char>)> {
    seq![
        ("client_id"@, p.client_id@),
        ("response_type"@, "code"@),
        ("response_mode"@, "query"@),
        ("scope"@, scope_text(p)),
        ("redirect_uri"@, p.redirect_uri@),
    ]
}

/// The fields of the token request's form, in order.
pub open spec fn token_form(p: AuthParameters, code: Seq<char>, kid: Seq<char>) -> Seq<
    (Seq<char>, Seq<char>),
> {
    seq![
        ("client_id"@, p.client_id@),
        ("grant_type"@, "authorization_code"@),
        ("code"@, code),
        ("scope"@, scope_text(p)),
        ("req_cnf"@, base64_text(req_cnf_text(kid))),
        ("redirect_uri"@, p.redirect_uri@),
    ]
}

/// `m` is the message of some `url::ParseError`.
pub open spec fn is_url_error_message(m: String) -> bool {
    exists|e: url::ParseError| to_string_from_display_ensures::<url::ParseError>(&e, m)
}

/// The result of `build_auth_url` on `p`. The URL is built exactly where
/// the authorization endpoint's address parses; it has the endpoint's
/// origin, and its query pairs are the endpoint's followed by the
/// authorization parameters; where the address has no `?` and no `#`, the
/// URL is the endpoint's serialization, `?`, and then the query.
pub open spec fn auth_url_outcome(p: AuthParameters, r: Result<String, MethodError>) -> bool {
    let base = authorize_base(p.authority@);
    &&& (url_with_params_text(base, authorize_params(p)) is Some <==> url_text(base) is Some)
    &&& match url_with_params_text(base, authorize_params(p)) {
        Some(u) => r matches Ok(s) && s@ == u && url_query_pairs(base) is Some && url_query_pairs(u)
            == Some(url_query_pairs(base)->0 + authorize_params(p)) && url_origin_text(u)
            == url_origin_text(base) && (plain_address(base) ==> (url_query_pairs(base) == Some(
            Seq::<(Seq<char>, Seq<char>)>::empty(),
        ) && u.len() > url_text(base)->0.len() && u.subrange(0, url_text(base)->0.len() + 1int)
            == url_text(base)->0.push('?'))),
        None => r matches Err(MethodError::InvalidArg(m)) && is_url_error_message(m),
    }
}

/// The result of `auth_url_from` on the outcome `parsed` of building the
/// URL: the URL, or an invalid-argument error with the message of the
/// parse's own error.
pub open spec fn auth_url_from_outcome(
    parsed: Result<String, url::ParseError>,
    r: Result<String, MethodError>,
) -> bool {
    match parsed {
        Ok(u) => r == Ok::<String, MethodError>(u),
        Err(e) => r matches Err(MethodError::InvalidArg(m)) && to_string_from_display_ensures::<
            url::ParseError,
        >(&e, m),
    }
}

/// The result of `token_request_from` on `p`, `code`, `kid` and the outcome
/// `parsed` of parsing the token endpoint's address: the request, or a
/// failure with the message of the parse's own error.
pub open spec fn token_request_from_outcome(
    p: AuthParameters,
    code: Seq<char>,
    kid: Seq<char>,
    parsed: Result<String, url::ParseError>,
    r: Result<TokenRequest, MethodError>,
) -> bool {
    match parsed {
        Ok(u) => r matches Ok(t) && t.url == u && t.form.deep_view() == token_form(p, code, kid),
        Err(e) => r matches Err(MethodError::Failed(m)) && to_string_from_display_ensures::<
            url::ParseError,
        >(&e, m),
    }
}

/// The result of `token_request` on `p`, `code` and `kid`.
pub open spec fn token_request_outcome(
    p: AuthParameters,
    code: Seq<char>,
    kid: Seq<char>,
    r: Result<TokenRequest, MethodError>,
) -> bool {
    match url_text(token_base(p.authority@)) {
        Some(u) => r matches Ok(t) && t.url@ == u && t.form.deep_view() == token_form(p, code, kid),
        None => r matches Err(MethodError::Failed(m)) && is_url_error_message(m),
    }
}

fn pair(k: &str, v: &str) -> (r: (String, String))
    ensures
        r.0@ == k@,
        r.1@ == v@,
{
    (String::from_str(k), String::from_str(v))
}

/// The URL at which the user signs in and authorizes the client: the
/// authority's authorization endpoint with the client id, the response
/// type `code`, the response mode `query`, the scopes and the redirect URI.
pub fn build_auth_url(params: &AuthParameters) -> (r: Result<String, MethodError>)
    ensures
        auth_url_outcome(*params, r),
{
    let mut base = params.authority.clone();
    base.append("/oauth2/v2.0/authorize");
    let scope = join_strings(&params.requested_scopes, " ");
    let mut query: Vec<(String, String)> = Vec::new();
    query.push(pair("client_id", params.client_id.as_str()));
    query.push(pair("response_type", "code"));
    query.push(pair("response_mode", "query"));
    query.push(pair("scope", scope.as_str()));
    query.push(pair("redirect_uri", params.redirect_uri.as_str()));
    assert(query.deep_view() =~= authorize_params(*params));
    auth_url_from(parse_url_with_params(base.as_str(), &query))
}

/// The authorization URL from the outcome of building it: the URL, or the
/// parse error's message as an invalid argument.
pub fn auth_url_from(parsed: Result<String, url::ParseError>) -> (r: Result<String, MethodError>)
    ensures
        auth_url_from_outcome(parsed, r),
{
    match parsed {
        Ok(u) => Ok(u),
        Err(e) => Err(MethodError::InvalidArg(e.to_string())),
    }
}

/// The request that exchanges the authorization `code` for a token: the
/// authority's token endpoint, and a form with the client id, the grant type
/// `authorization_code`, the code, the scopes, the request confirmation (the
/// base64 of the JSON of `kid`) and the redirect URI.
pub fn token_request(params: &AuthParameters, code: &str, kid: &str) -> (r: Result<
    TokenRequest,
    MethodError,
>)
    ensures
        token_request_outcome(*params, code@, kid@, r),
{
    let mut base = params.authority.clone();
    base.append("/oauth2/v2.0/token");
    token_request_from(params, code, kid, parse_url(base.as_str()))
}

/// The token request from the outcome `parsed` of parsing the token
/// endpoint's address (see `token_request`): the request, or the parse
/// error's message as a failure.
pub fn token_request_from(
    params: &AuthParameters,
    code: &str,
    kid: &str,
    parsed: Result<String, url::ParseError>,
) -> (r: Result<TokenRequest, MethodError>)
    ensures
        token_request_from_outcome(*params, code@, kid@, parsed, r),
{
    let cnf = req_cnf_json(&ReqCnf { kid: String::from_str(kid) });
    let cnf = base64_encode(cnf.as_str());
    let url = match parsed {
        Ok(u) => u,
        Err(e) => {
            return Err(MethodError::Failed(e.to_string()));
        },
    };
    let scope = join_strings(&params.requested_scopes, " ");
    let mut form: Vec<(String, String)> = Vec::new();
    form.push(pair("client_id", params.client_id.as_str()));
    form.push(pair("grant_type", "authorization_code"));
    form.push(pair("code", code));
    form.push(pair("scope", scope.as_str()));
    form.push(pair("req_cnf", cnf.as_str()));
    form.push(pair("redirect_uri", params.redirect_uri.as_str()));
    assert(form.deep_view() =~= token_form(*params, code@, kid@));
    Ok(TokenRequest { url, form })
}

/// An `acquireTokenSilently` call in progress, between its steps of outside
/// work: the parameters of the call and the key id of its proof-of-possession
/// key.
#[derive(Debug)]
pub struct AcquireFlow {
    pub params: AuthParameters,
    pub kid: String,
}

/// The result of `AcquireFlow::start` on `payload`.
pub open spec fn start_outcome(
    payload: AcquireTokenSilentryPayload,
    r: Result<(AcquireFlow, String), MethodError>,
) -> bool {
    let p = payload.auth_parameters;
    match p.pop_params {
        None => r matches Err(MethodError::InvalidArg(m)) && m@ == "no pop_params"@,
        Some(pop) => match url_with_params_text(authorize_base(p.authority@), authorize_params(p)) {
            Some(u) => r matches Ok((f, s)) && s@ == u && f.params == p && f.kid@ == pop.kid@,
            None => r matches Err(MethodError::InvalidArg(m)) && is_url_error_message(m),
        },
    }
}

/// The result of `AcquireFlow::token_request` on the outcome `code` of the
/// sign-in.
pub open spec fn code_outcome(
    f: AcquireFlow,
    code: Result<String, String>,
    r: Result<TokenRequest, MethodError>,
) -> bool {
    match code {
        Err(m) => r matches Err(MethodError::Failed(s)) && s@ == m@,
        Ok(c) => token_request_outcome(f.params, c@, f.kid@, r),
    }
}

/// The JSON text of the reply with `token` to the call with parameters `p`:
/// the access token, empty token type, client info and id token, expiry 0,
/// and the requested scopes as the granted ones.
pub open spec fn token_reply_text(p: AuthParameters, token: Seq<char>) -> Seq<char> {
    let empty = json_string_text(Seq::empty());
    "{\"brokerTokenResponse\":"@ + ("{\"accessToken\":"@ + json_string_text(token)
        + ",\"accessTokenType\":"@ + empty + ",\"clientInfo\":"@ + empty + ",\"expiresOn\":"@
        + decimal_text(0) + ",\"idToken\":"@ + empty + ",\"grantedScopes\":"@ + json_string_text(
        scope_text(p),
    ) + "}"@) + "}"@
}

impl AcquireFlow {
    /// Takes an `acquireTokenSilently` payload: a payload without
    /// proof-of-possession parameters is refused; otherwise the answer is the
    /// authorization URL at which the user is to sign in.
    pub fn start(payload: AcquireTokenSilentryPayload) -> (r: Result<(AcquireFlow, String), MethodError>)
        ensures
            start_outcome(payload, r),
    {
        let params = payload.auth_parameters;
        let kid = match &params.pop_params {
            Some(pop) => pop.kid.clone(),
            None => {
                return Err(MethodError::InvalidArg(String::from_str("no pop_params")));
            },
        };
        let url = match build_auth_url(&params) {
            Ok(u) => u,
            Err(e) => {
                return Err(e);
            },
        };
        Ok((AcquireFlow { params, kid }, url))
    }

    /// Takes the outcome of the sign-in: an error message fails the call;
    /// an authorization code gives the request that exchanges it for a
    /// token.
    pub fn token_request(&self, code: Result<String, String>) -> (r: Result<TokenRequest, MethodError>)
        ensures
            code_outcome(*self, code, r),
    {
        match code {
            Err(m) => Err(MethodError::Failed(m)),
            Ok(c) => token_request(&self.params, c.as_str(), self.kid.as_str()),
        }
    }

    /// The reply that carries the access `token`.
    pub fn reply(&self, token: &str) -> (r: String)
        ensures
            r@ == token_reply_text(self.params, token@),
    {
        let response = BrokerTokenResponse {
            access_token: String::from_str(token),
            access_token_type: String::new(),
            client_info: String::new(),
            expires_on: 0,
            id_token: String::new(),
            granted_scopes: join_strings(&self.params.requested_scopes, " "),
        };
        let reply = AcquireTokenSilentryReply { broker_token_response: response };
        let r = acquire_reply_json(&reply);
        r
    }
}

/// The token request repeats what the authorization URL asked for: the same
/// client id, the same scopes and the same redirect URI; and the reply grants
/// those scopes.
pub proof fn law_token_request_matches_authorization(
    p: AuthParameters,
    code: Seq<char>,
    kid: Seq<char>,
    token: Seq<char>,
)
    ensures
        authorize_params(p)[0] == token_form(p, code, kid)[0],
        authorize_params(p)[3] == token_form(p, code, kid)[3],
        authorize_params(p)[4] == token_form(p, code, kid)[5],
        token_reply_text(p, token) == "{\"brokerTokenResponse\":"@ + ("{\"accessToken\":"@
            + json_string_text(token) + ",\"accessTokenType\":"@ + json_string_text(Seq::empty())
            + ",\"clientInfo\":"@ + json_string_text(Seq::empty()) + ",\"expiresOn\":"@
            + decimal_text(0) + ",\"idToken\":"@ + json_string_text(Seq::empty())
            + ",\"grantedScopes\":"@ + json_string_text(authorize_params(p)[3].1) + "}"@) + "}"@,
{
}

/// Where the authorization endpoint's address parses and holds no `?` and no
/// `#`, the authorization URL is built; it begins with the endpoint's
/// serialization and `?` (so scheme, host, port and path are the
/// endpoint's), keeps the endpoint's origin, and carries exactly the
/// authorization parameters as its query pairs, in order.
pub proof fn law_auth_url_carries_params(p: AuthParameters, r: Result<String, MethodError>)
    requires
        auth_url_outcome(p, r),
        url_text(authorize_base(p.authority@)) is Some,
        plain_address(authorize_base(p.authority@)),
    ensures
        r is Ok,
        url_query_pairs(r->Ok_0@) == Some(authorize_params(p)),
        url_origin_text(r->Ok_0@) == url_origin_text(authorize_base(p.authority@)),
        r->Ok_0@.subrange(0, url_text(authorize_base(p.authority@))->0.len() + 1int) == url_text(
            authorize_base(p.authority@),
        )->0.push('?'),
{
    assert(Seq::<(Seq<char>, Seq<char>)>::empty() + authorize_params(p) =~= authorize_params(p));
}

/// The request confirmation of the token request is the base64 of the JSON
/// object whose one member `kid` is the JSON string of the key id given,
/// unchanged; a key id without quotes, backslashes and control characters
/// (such as a base64url thumbprint, with `-` and `_`) stands in it as is.
pub proof fn law_req_cnf_carries_the_kid(p: AuthParameters, code: Seq<char>, kid: Seq<char>)
    ensures
        req_cnf_text(kid) == "{\"kid\":"@ + json_string_text(kid) + "}"@,
        token_form(p, code, kid)[4] == ("req_cnf"@, base64_text(
            "{\"kid\":"@ + json_string_text(kid) + "}"@,
        )),
        (forall|i: int| 0 <= i < kid.len() ==> kid[i] != '"' && kid[i] != '\\' && (kid[i] as int)
            >= 32) ==> token_form(p, code, kid)[4].1 == base64_text(
            "{\"kid\":"@ + (seq!['"'] + kid + seq!['"']) + "}"@,
        ),
{
    if forall|i: int| 0 <= i < kid.len() ==> kid[i] != '"' && kid[i] != '\\' && (kid[i] as int)
        >= 32 {
        law_plain_text_is_quoted_as_is(kid);
    }
}

/// Every requested scope is sent, in order, separated by single spaces: in
/// the authorization URL's `scope` pair, in the token request's `scope`
/// field, and as the granted scopes of the reply; one more scope appends a
/// space and that scope.
pub proof fn law_scopes_kept(p: AuthParameters, code: Seq<char>, kid: Seq<char>, x: Seq<char>)
    ensures
        authorize_params(p)[3] == ("scope"@, join_with(p.requested_scopes.deep_view(), " "@)),
        token_form(p, code, kid)[3] == ("scope"@, join_with(p.requested_scopes.deep_view(), " "@)),
        p.requested_scopes.deep_view().len() > 0 ==> join_with(
            p.requested_scopes.deep_view().push(x),
            " "@,
        ) == join_with(p.requested_scopes.deep_view(), " "@) + " "@ + x,
        p.requested_scopes.deep_view().len() > 0 ==> join_with(
            p.requested_scopes.deep_view(),
            " "@,
        ).len() == total_len(p.requested_scopes.deep_view()) + (p.requested_scopes.deep_view().len()
            - 1) * " "@.len(),
{
    law_join_appends(p.requested_scopes.deep_view(), " "@, x);
    if p.requested_scopes.deep_view().len() > 0 {
        law_join_length(p.requested_scopes.deep_view(), " "@);
    }
}

} // verus!
