//! Fetching an access token for each kind of account: the requests to send, and what each
//! answer leads to. The caller performs the reads and the HTTP exchanges and hands back what
//! came of them; `FetchFlow::step` decides the next one.
use vstd::prelude::*;
use vstd::string::{StrSliceExecFns, StringExecFns, StringSliceAdditionalSpecFns};

use crate::auth::error::{JwtError, NetConnError};
use crate::auth::user_account::{
    service_account_jwt, ImpersonatedAccount, SourceCredentials, UserAccount,
    WorkloadIdentityAccount,
};
use crate::text::{distinct_names, lemma_percent_encode_bytes, percent_encode, trim_str, trim_ws, url_encode, utf8_lossy, utf8_of, lossy_string};

verus! {

/// The account a token is fetched for.
pub enum FetchAccount {
    UserAccount(UserAccount),
    ImpersonatedAccount(ImpersonatedAccount),
    WorkloadIdentity(WorkloadIdentityAccount),
}

/// The token that a token endpoint hands back.
pub struct TokenResponse {
    pub access_token: String,
    pub expires_in: u64,
    pub token_type: String,
}

/// The answer of the security token service.
pub struct StsTokenResponse {
    pub error: Option<String>,
    pub error_description: Option<String>,
    pub access_token: String,
    pub expires_in: u64,
    pub token_type: String,
}

/// The answer of the service account impersonation endpoint.
pub struct ImpersonationTokenResponse {
    pub access_token: String,
    pub expire_time: String,
}

/// The method of an HTTP request.
#[derive(Debug, PartialEq, Eq, Structural)]
pub enum HttpMethod {
    Get,
    Post,
}

/// An HTTP request to send.
pub struct HttpRequest {
    pub method: HttpMethod,
    pub uri: String,
    /// Header names and values, in the order they are set.
    pub headers: Vec<(String, String)>,
    pub body: Vec<u8>,
}

/// Where the fetch stands.
#[derive(Debug, PartialEq, Eq, Structural)]
pub enum FetchState {
    Start,
    /// A token request was sent; its parsed answer comes next.
    AwaitingToken,
    /// The subject token file is being read.
    AwaitingSubjectFile,
    /// The subject token is being fetched from its URL.
    AwaitingSubjectUrl,
    /// The token exchange request was sent.
    AwaitingSts,
    /// The impersonation request was sent.
    AwaitingImpersonation,
    Finished,
}

/// Why the subject token file could not be read.
pub enum SubjectFileError {
    NotFound,
    Other(std::io::Error),
}

/// What the caller hands back.
pub enum FetchEvent {
    /// Start, at this time in seconds since the epoch.
    Begin { now_secs: u64 },
    /// The contents of the subject token file.
    SubjectFile(Result<String, SubjectFileError>),
    /// The body of the answer from the subject token URL.
    SubjectBody(Vec<u8>),
    /// The parsed answer of a token request.
    Token(TokenResponse),
    /// The parsed answer of the token exchange.
    Sts(StsTokenResponse),
    /// The parsed answer of the impersonation endpoint, and the time it came.
    Impersonation { response: ImpersonationTokenResponse, now_secs: u64 },
}

/// What the caller does next.
pub enum FetchAction {
    ReadSubjectFile(String),
    Send(HttpRequest),
    Finish(Result<TokenResponse, NetConnError>),
}

// ---------------------------------------------------------------------------
// The requests
// ---------------------------------------------------------------------------

/// The Google OAuth token endpoint.
pub open spec fn google_token_uri() -> Seq<char> {
    "https://oauth2.googleapis.com/token"@
}

/// The content type of a form body.
pub open spec fn form_header() -> (Seq<char>, Seq<char>) {
    ("Content-Type"@, "application/x-www-form-urlencoded"@)
}

/// The views of a list of headers.
pub open spec fn header_views(h: Seq<(String, String)>) -> Seq<(Seq<char>, Seq<char>)> {
    h.map_values(|p: (String, String)| (p.0@, p.1@))
}

/// `req` is a request with these parts.
pub open spec fn request_is(
    req: HttpRequest,
    method: HttpMethod,
    uri: Seq<char>,
    headers: Seq<(Seq<char>, Seq<char>)>,
    body: Seq<u8>,
) -> bool {
    &&& req.method == method
    &&& req.uri@ == uri
    &&& header_views(req.headers@) == headers
    &&& req.body@ == body
}

/// The form body that trades a signed assertion for a token.
pub open spec fn jwt_bearer_body(jwt: Seq<char>) -> Seq<u8> {
    utf8_of("grant_type=urn:ietf:params:oauth:grant-type:jwt-bearer&assertion="@ + jwt)
}

/// The form body that trades a refresh token for a token.
pub open spec fn refresh_body(c: SourceCredentials) -> Seq<u8> {
    utf8_of("grant_type=refresh_token&refresh_token="@) + percent_encode(utf8_of(c.refresh_token@))
        + utf8_of("&client_id="@) + percent_encode(utf8_of(c.client_id@)) + utf8_of(
        "&client_secret="@,
    ) + percent_encode(utf8_of(c.client_secret@))
}

/// The form body that trades a subject token for a federated token.
pub open spec fn sts_body(w: WorkloadIdentityAccount, subject: Seq<char>) -> Seq<u8> {
    utf8_of("grant_type=urn:ietf:params:oauth:grant-type:token-exchange&audience="@)
        + percent_encode(utf8_of(w.audience@)) + utf8_of(
        "&scope=https://www.googleapis.com/auth/cloud-platform&requested_token_type=urn:ietf:params:oauth:token-type:access_token&subject_token_type="@,
    ) + percent_encode(utf8_of(w.subject_token_type@)) + utf8_of("&subject_token="@)
        + percent_encode(utf8_of(subject))
}

/// The JSON body of the impersonation request.
pub open spec fn impersonation_body() -> Seq<char> {
    "{\"scope\":[\"https://www.googleapis.com/auth/cloud-platform\"],\"lifetime\":\"3600s\"}"@
}

/// The headers of the impersonation request.
pub open spec fn impersonation_headers(access_token: Seq<char>) -> Seq<(Seq<char>, Seq<char>)> {
    seq![
        ("Content-Type"@, "application/json; charset=utf-8"@),
        ("Authorization"@, "Bearer "@ + access_token),
    ]
}

fn str_pair(a: &str, b: &str) -> (r: (String, String))
    ensures
        r.0@ == a@,
        r.1@ == b@,
{
    (String::from_str(a), String::from_str(b))
}

/// The bytes of a string.
fn string_bytes(s: &String) -> (r: Vec<u8>)
    ensures
        r@ == utf8_of(s@),
{
    s.as_str().as_bytes_vec()
}

fn form_request(uri: &str, body: &String) -> (r: HttpRequest)
    ensures
        request_is(r, HttpMethod::Post, uri@, seq![form_header()], utf8_of(body@)),
{
    let mut headers: Vec<(String, String)> = Vec::new();
    headers.push(str_pair("Content-Type", "application/x-www-form-urlencoded"));
    assert(header_views(headers@) =~= seq![form_header()]);
    HttpRequest {
        method: HttpMethod::Post,
        uri: String::from_str(uri),
        headers,
        body: string_bytes(body),
    }
}

/// Appends `s` to `acc`, as bytes.
fn push_str(acc: &mut String, s: &str)
    ensures
        utf8_of(final(acc)@) == utf8_of(old(acc)@) + utf8_of(s@),
{
    proof {
        crate::text::lemma_encode_utf8_concat(acc@, s@);
    }
    acc.append(s);
}

/// The request that trades a service account assertion for a token.
pub fn jwt_bearer_request(jwt: &str) -> (r: HttpRequest)
    ensures
        request_is(r, HttpMethod::Post, google_token_uri(), seq![form_header()], jwt_bearer_body(jwt@)),
{
    let mut body = String::from_str("grant_type=urn:ietf:params:oauth:grant-type:jwt-bearer&assertion=");
    body.append(jwt);
    form_request("https://oauth2.googleapis.com/token", &body)
}

/// The request that trades the refresh token of an impersonated account for a token.
pub fn refresh_request(c: &SourceCredentials) -> (r: HttpRequest)
    ensures
        request_is(r, HttpMethod::Post, google_token_uri(), seq![form_header()], refresh_body(*c)),
{
    let mut body = String::from_str("grant_type=refresh_token&refresh_token=");
    let e1 = url_encode(c.refresh_token.as_str());
    push_str(&mut body, e1.as_str());
    push_str(&mut body, "&client_id=");
    let e2 = url_encode(c.client_id.as_str());
    push_str(&mut body, e2.as_str());
    push_str(&mut body, "&client_secret=");
    let e3 = url_encode(c.client_secret.as_str());
    push_str(&mut body, e3.as_str());
    form_request("https://oauth2.googleapis.com/token", &body)
}

/// Copies a list of headers.
fn copy_headers(h: &Vec<(String, String)>) -> (r: Vec<(String, String)>)
    ensures
        r@ == h@,
{
    let mut r: Vec<(String, String)> = Vec::new();
    let mut i: usize = 0;
    while i < h.len()
        invariant
            i <= h@.len(),
            r@ == h@.take(i as int),
        decreases h@.len() - i,
    {
        let kc = h[i].0.clone();
        let vc = h[i].1.clone();
        r.push((kc, vc));
        assert(r@ =~= h@.take(i + 1));
        i = i + 1;
    }
    assert(h@.take(h@.len() as int) =~= h@);
    r
}

/// The views of the optional headers of a credential source.
pub open spec fn source_headers(h: Option<Vec<(String, String)>>) -> Seq<(Seq<char>, Seq<char>)> {
    match h {
        Some(v) => header_views(v@),
        None => Seq::empty(),
    }
}

/// The request that fetches a subject token from its URL.
pub fn subject_request(url: &String, headers: &Option<Vec<(String, String)>>) -> (r: HttpRequest)
    ensures
        request_is(r, HttpMethod::Get, url@, source_headers(*headers), Seq::empty()),
        (headers matches Some(h) && distinct_names(h@)) ==> distinct_names(r.headers@),
{
    let hs = match headers {
        Some(h) => copy_headers(h),
        None => {
            let v: Vec<(String, String)> = Vec::new();
            assert(header_views(v@) =~= Seq::empty());
            v
        },
    };
    let body: Vec<u8> = Vec::new();
    HttpRequest { method: HttpMethod::Get, uri: url.clone(), headers: hs, body }
}

/// The request that trades a subject token for a federated token.
pub fn sts_request(w: &WorkloadIdentityAccount, subject: &str) -> (r: HttpRequest)
    ensures
        request_is(r, HttpMethod::Post, w.token_url@, seq![form_header()], sts_body(*w, subject@)),
{
    let mut body = String::from_str("grant_type=urn:ietf:params:oauth:grant-type:token-exchange&audience=");
    let e1 = url_encode(w.audience.as_str());
    push_str(&mut body, e1.as_str());
    push_str(
        &mut body,
        "&scope=https://www.googleapis.com/auth/cloud-platform&requested_token_type=urn:ietf:params:oauth:token-type:access_token&subject_token_type=",
    );
    let e2 = url_encode(w.subject_token_type.as_str());
    push_str(&mut body, e2.as_str());
    push_str(&mut body, "&subject_token=");
    let e3 = url_encode(subject);
    push_str(&mut body, e3.as_str());
    form_request(w.token_url.as_str(), &body)
}

/// The request that impersonates a service account with a federated token.
pub fn impersonation_request(url: &String, access_token: &String) -> (r: HttpRequest)
    ensures
        request_is(r, HttpMethod::Post, url@, impersonation_headers(access_token@), utf8_of(impersonation_body())),
{
    let mut headers: Vec<(String, String)> = Vec::new();
    headers.push(str_pair("Content-Type", "application/json; charset=utf-8"));
    let mut bearer = String::from_str("Bearer ");
    bearer.append(access_token.as_str());
    headers.push((String::from_str("Authorization"), bearer));
    assert(header_views(headers@) =~= impersonation_headers(access_token@));
    let body = String::from_str(
        "{\"scope\":[\"https://www.googleapis.com/auth/cloud-platform\"],\"lifetime\":\"3600s\"}",
    );
    HttpRequest { method: HttpMethod::Post, uri: url.clone(), headers, body: string_bytes(&body) }
}

// ---------------------------------------------------------------------------
// The expiry of an impersonated token
// ---------------------------------------------------------------------------

/// The Unix time that `chrono` reads out of an RFC 3339 timestamp, or `None` where it refuses
/// the text.
pub uninterp spec fn rfc3339_timestamp(text: Seq<char>) -> Option<i64>;

/// Calls `chrono::DateTime::parse_from_rfc3339` and, on success, `DateTime::timestamp`: the
/// result is a function of the text alone. Which texts are accepted is left unsaid.
#[verifier::external_body]
fn parse_rfc3339_timestamp(text: &str) -> (r: Option<i64>)
    ensures
        r == rfc3339_timestamp(text@),
{
    match chrono::DateTime::parse_from_rfc3339(text) {
        Ok(dt) => Some(dt.timestamp()),
        Err(_) => None,
    }
}

/// Seconds left until `expire_time` at `now`: the parsed time (as `u64`), or an hour from
/// now where it cannot be parsed, less `now`, and never below zero.
pub open spec fn expires_in_secs(expire_time: Seq<char>, now: u64) -> u64 {
    let expire: u64 = match rfc3339_timestamp(expire_time) {
        Some(ts) => ts as u64,
        None => (now + 3600) as u64,
    };
    if expire > now {
        (expire - now) as u64
    } else {
        0
    }
}

/// Seconds left until the impersonated token expires.
pub fn impersonated_expires_in(expire_time: &str, now_secs: u64) -> (r: u64)
    requires
        now_secs + 3600 <= u64::MAX,
    ensures
        r == expires_in_secs(expire_time@, now_secs),
{
    let fallback = now_secs + 3600;
    let expire = match parse_rfc3339_timestamp(expire_time) {
        Some(ts) => ts as u64,
        None => fallback,
    };
    expire.saturating_sub(now_secs)
}

// ---------------------------------------------------------------------------
// The flow
// ---------------------------------------------------------------------------

/// The fetch of one token for one account.
pub struct FetchFlow {
    pub account: FetchAccount,
    pub state: FetchState,
}

/// The answer to an event that does not fit the step the flow is at.
pub open spec fn out_of_step(s2: FetchState, a: FetchAction) -> bool {
    s2 == FetchState::Finished && (a matches FetchAction::Finish(
        Err(NetConnError::UnexpectedResponse(m)),
    ) && m@ == "unexpected step in the token fetch"@)
}

/// The exchange of a subject token, once it is known.
pub open spec fn exchanges(w: WorkloadIdentityAccount, subject: Seq<char>, s2: FetchState, a: FetchAction) -> bool {
    s2 == FetchState::AwaitingSts && (a matches FetchAction::Send(req) && request_is(
        req,
        HttpMethod::Post,
        w.token_url@,
        seq![form_header()],
        sts_body(w, subject),
    ))
}

/// The step the flow takes on an event: the next state `s2` and the action `a`.
pub open spec fn step_spec(acct: FetchAccount, s: FetchState, e: FetchEvent, s2: FetchState, a: FetchAction) -> bool {
    match (s, e) {
        (FetchState::Start, FetchEvent::Begin { now_secs }) => match acct {
            FetchAccount::UserAccount(u) => match service_account_jwt(
                u.client_email@,
                u.private_key@,
                now_secs as usize,
            ) {
                Some(jwt) => s2 == FetchState::AwaitingToken && (a matches FetchAction::Send(req)
                    && request_is(
                    req,
                    HttpMethod::Post,
                    google_token_uri(),
                    seq![form_header()],
                    jwt_bearer_body(jwt),
                )),
                None => s2 == FetchState::Finished && a matches FetchAction::Finish(
                    Err(NetConnError::Jwt(JwtError::Jwt(_))),
                ),
            },
            FetchAccount::ImpersonatedAccount(i) => s2 == FetchState::AwaitingToken
                && (a matches FetchAction::Send(req) && request_is(
                req,
                HttpMethod::Post,
                google_token_uri(),
                seq![form_header()],
                refresh_body(i.source_credentials),
            )),
            FetchAccount::WorkloadIdentity(w) => match (
                w.credential_source.file,
                w.credential_source.url,
            ) {
                (Some(f), _) => s2 == FetchState::AwaitingSubjectFile
                    && (a matches FetchAction::ReadSubjectFile(p) && p@ == f@),
                (None, Some(u)) => s2 == FetchState::AwaitingSubjectUrl
                    && (a matches FetchAction::Send(req) && request_is(
                    req,
                    HttpMethod::Get,
                    u@,
                    source_headers(w.credential_source.headers),
                    Seq::empty(),
                )),
                (None, None) => s2 == FetchState::Finished && a matches FetchAction::Finish(
                    Err(NetConnError::MissingCredentialSource),
                ),
            },
        },
        (FetchState::AwaitingToken, FetchEvent::Token(t)) => s2 == FetchState::Finished && a
            == FetchAction::Finish(Ok(t)),
        (FetchState::AwaitingSubjectFile, FetchEvent::SubjectFile(res)) => match acct {
            FetchAccount::WorkloadIdentity(w) => match res {
                Ok(content) => exchanges(w, trim_ws(content@), s2, a),
                Err(SubjectFileError::NotFound) => s2 == FetchState::Finished && a
                    == FetchAction::Finish(Err(NetConnError::MissingCredentialSource)),
                Err(SubjectFileError::Other(err)) => s2 == FetchState::Finished && a
                    == FetchAction::Finish(Err(NetConnError::Io(err))),
            },
            _ => out_of_step(s2, a),
        },
        (FetchState::AwaitingSubjectUrl, FetchEvent::SubjectBody(body)) => match acct {
            FetchAccount::WorkloadIdentity(w) => exchanges(w, trim_ws(utf8_lossy(body@)), s2, a),
            _ => out_of_step(s2, a),
        },
        (FetchState::AwaitingSts, FetchEvent::Sts(sts)) => match acct {
            FetchAccount::WorkloadIdentity(w) => match w.service_account_impersonation_url {
                None => s2 == FetchState::Finished && a == FetchAction::Finish(
                    Ok(
                        TokenResponse {
                            access_token: sts.access_token,
                            expires_in: sts.expires_in,
                            token_type: sts.token_type,
                        },
                    ),
                ),
                Some(url) => s2 == FetchState::AwaitingImpersonation
                    && (a matches FetchAction::Send(req) && request_is(
                    req,
                    HttpMethod::Post,
                    url@,
                    impersonation_headers(sts.access_token@),
                    utf8_of(impersonation_body()),
                )),
            },
            _ => out_of_step(s2, a),
        },
        (FetchState::AwaitingImpersonation, FetchEvent::Impersonation { response, now_secs }) => {
            s2 == FetchState::Finished && (a matches FetchAction::Finish(Ok(t)) && t.access_token
                == response.access_token && t.expires_in == expires_in_secs(
                response.expire_time@,
                now_secs,
            ) && t.token_type@ == "Bearer"@)
        },
        _ => out_of_step(s2, a),
    }
}

/// The times an event carries are far enough from the end of their integer types that an
/// hour can be added to them.
pub open spec fn event_times_fit(e: FetchEvent) -> bool {
    match e {
        FetchEvent::Begin { now_secs } => (now_secs as usize) + 3600 <= usize::MAX,
        FetchEvent::Impersonation { now_secs, .. } => now_secs + 3600 <= u64::MAX,
        _ => true,
    }
}

impl FetchFlow {
    /// A fetch for `account`, not yet begun.
    pub fn new(account: FetchAccount) -> (r: Self)
        ensures
            r.account == account,
            r.state == FetchState::Start,
    {
        FetchFlow { account, state: FetchState::Start }
    }

    fn unexpected() -> (r: FetchAction)
        ensures
            out_of_step(FetchState::Finished, r),
    {
        FetchAction::Finish(
            Err(NetConnError::UnexpectedResponse(String::from_str("unexpected step in the token fetch"))),
        )
    }

    /// Takes the step that `event` calls for, and says what to do next.
    pub fn step(&mut self, event: FetchEvent) -> (a: FetchAction)
        requires
            event_times_fit(event),
        ensures
            final(self).account == old(self).account,
            step_spec(old(self).account, old(self).state, event, final(self).state, a),
    {
        let state = if self.state == FetchState::Start {
            FetchState::Start
        } else if self.state == FetchState::AwaitingToken {
            FetchState::AwaitingToken
        } else if self.state == FetchState::AwaitingSubjectFile {
            FetchState::AwaitingSubjectFile
        } else if self.state == FetchState::AwaitingSubjectUrl {
            FetchState::AwaitingSubjectUrl
        } else if self.state == FetchState::AwaitingSts {
            FetchState::AwaitingSts
        } else if self.state == FetchState::AwaitingImpersonation {
            FetchState::AwaitingImpersonation
        } else {
            FetchState::Finished
        };
        self.state = FetchState::Finished;
        match (state, event) {
            (FetchState::Start, FetchEvent::Begin { now_secs }) => match &self.account {
                FetchAccount::UserAccount(u) => match u.create_jwt(now_secs) {
                    Ok(jwt) => {
                        self.state = FetchState::AwaitingToken;
                        FetchAction::Send(jwt_bearer_request(jwt.as_str()))
                    },
                    Err(e) => FetchAction::Finish(Err(NetConnError::Jwt(e))),
                },
                FetchAccount::ImpersonatedAccount(i) => {
                    self.state = FetchState::AwaitingToken;
                    FetchAction::Send(refresh_request(&i.source_credentials))
                },
                FetchAccount::WorkloadIdentity(w) => {
                    if let Some(path) = &w.credential_source.file {
                        self.state = FetchState::AwaitingSubjectFile;
                        FetchAction::ReadSubjectFile(path.clone())
                    } else if let Some(url) = &w.credential_source.url {
                        self.state = FetchState::AwaitingSubjectUrl;
                        FetchAction::Send(subject_request(url, &w.credential_source.headers))
                    } else {
                        FetchAction::Finish(Err(NetConnError::MissingCredentialSource))
                    }
                },
            },
            (FetchState::AwaitingToken, FetchEvent::Token(t)) => FetchAction::Finish(Ok(t)),
            (FetchState::AwaitingSubjectFile, FetchEvent::SubjectFile(res)) => match &self.account {
                FetchAccount::WorkloadIdentity(w) => match res {
                    Ok(content) => {
                        let subject = trim_str(content.as_str());
                        self.state = FetchState::AwaitingSts;
                        FetchAction::Send(sts_request(w, subject))
                    },
                    Err(SubjectFileError::NotFound) => FetchAction::Finish(
                        Err(NetConnError::MissingCredentialSource),
                    ),
                    Err(SubjectFileError::Other(err)) => FetchAction::Finish(
                        Err(NetConnError::Io(err)),
                    ),
                },
                _ => Self::unexpected(),
            },
            (FetchState::AwaitingSubjectUrl, FetchEvent::SubjectBody(body)) => match &self.account {
                FetchAccount::WorkloadIdentity(w) => {
                    let text = lossy_string(body.as_slice());
                    let subject = trim_str(text.as_str());
                    self.state = FetchState::AwaitingSts;
                    FetchAction::Send(sts_request(w, subject))
                },
                _ => Self::unexpected(),
            },
            (FetchState::AwaitingSts, FetchEvent::Sts(sts)) => match &self.account {
                FetchAccount::WorkloadIdentity(w) => match &w.service_account_impersonation_url {
                    None => FetchAction::Finish(
                        Ok(
                            TokenResponse {
                                access_token: sts.access_token,
                                expires_in: sts.expires_in,
                                token_type: sts.token_type,
                            },
                        ),
                    ),
                    Some(url) => {
                        self.state = FetchState::AwaitingImpersonation;
                        FetchAction::Send(impersonation_request(url, &sts.access_token))
                    },
                },
                _ => Self::unexpected(),
            },
            (
                FetchState::AwaitingImpersonation,
                FetchEvent::Impersonation { response, now_secs },
            ) => {
                let expires_in = impersonated_expires_in(response.expire_time.as_str(), now_secs);
                FetchAction::Finish(
                    Ok(
                        TokenResponse {
                            access_token: response.access_token,
                            expires_in,
                            token_type: String::from_str("Bearer"),
                        },
                    ),
                )
            },
            _ => Self::unexpected(),
        }
    }
}

// ---------------------------------------------------------------------------
// Forwarding a provider token request
// ---------------------------------------------------------------------------

/// The request that forwards a JSON body to a token provider: a `GET` (the method a request
/// builder starts with) that carries the body.
pub fn provider_token_request(url: &str, body: Vec<u8>) -> (r: HttpRequest)
    ensures
        request_is(r, HttpMethod::Get, url@, seq![("Content-Type"@, "application/json"@)], body@),
{
    let mut headers: Vec<(String, String)> = Vec::new();
    headers.push(str_pair("Content-Type", "application/json"));
    assert(header_views(headers@) =~= seq![("Content-Type"@, "application/json"@)]);
    HttpRequest { method: HttpMethod::Get, uri: String::from_str(url), headers, body }
}

/// A status code in the success class, 200 to 299.
pub open spec fn is_success(status: u16) -> bool {
    200 <= status <= 299
}

/// Only the success class is accepted: a status passes exactly when its hundreds digit is 2;
/// every informational, redirect, client-error and server-error status is refused.
pub proof fn lemma_only_success_class_passes(status: u16)
    ensures
        is_success(status) <==> status / 100 == 2,
        status < 200 || status >= 300 ==> !is_success(status),
{
}

/// Accepts a response status in the success class and turns any other into an error.
pub fn check_status(status: u16) -> (r: Result<(), NetConnError>)
    ensures
        is_success(status) ==> r is Ok,
        !is_success(status) ==> (r matches Err(NetConnError::Status(s)) && s == status),
{
    if 200 <= status && status <= 299 {
        Ok(())
    } else {
        Err(NetConnError::Status(status))
    }
}

// ---------------------------------------------------------------------------
// What holds of every fetch
// ---------------------------------------------------------------------------

/// How far a fetch has come.
pub open spec fn progress(s: FetchState) -> int {
    match s {
        FetchState::Start => 0,
        FetchState::AwaitingSubjectFile => 1,
        FetchState::AwaitingSubjectUrl => 1,
        FetchState::AwaitingSts => 2,
        FetchState::AwaitingToken => 3,
        FetchState::AwaitingImpersonation => 3,
        FetchState::Finished => 4,
    }
}

/// Every step moves the fetch forward, so a fetch finishes after at most four steps; once
/// finished it stays finished and answers every event with an error.
pub proof fn lemma_step_moves_forward(acct: FetchAccount, s: FetchState, e: FetchEvent, s2: FetchState, a: FetchAction)
    requires
        step_spec(acct, s, e, s2, a),
    ensures
        s == FetchState::Finished ==> out_of_step(s2, a),
        s != FetchState::Finished ==> progress(s2) > progress(s),
        s2 == FetchState::Finished <==> a is Finish,
{
}

/// For a user account the fetch posts the signed assertion and ends with the token the
/// endpoint answered, as it came.
pub proof fn lemma_user_account_fetch(
    u: UserAccount,
    now: u64,
    s1: FetchState,
    a1: FetchAction,
    t: TokenResponse,
    s2: FetchState,
    a2: FetchAction,
)
    requires
        service_account_jwt(u.client_email@, u.private_key@, now as usize) is Some,
        step_spec(FetchAccount::UserAccount(u), FetchState::Start, FetchEvent::Begin { now_secs: now }, s1, a1),
        step_spec(FetchAccount::UserAccount(u), s1, FetchEvent::Token(t), s2, a2),
    ensures
        a1 matches FetchAction::Send(req) && req.uri@ == google_token_uri() && req.body@
            == jwt_bearer_body(service_account_jwt(u.client_email@, u.private_key@, now as usize)->0),
        s2 == FetchState::Finished,
        a2 == FetchAction::Finish(Ok(t)),
{
}

/// For a workload identity without impersonation the fetch ends with the exchanged token as
/// the security token service answered it.
pub proof fn lemma_exchanged_token_passes_through(
    w: WorkloadIdentityAccount,
    sts: StsTokenResponse,
    s2: FetchState,
    a: FetchAction,
)
    requires
        w.service_account_impersonation_url is None,
        step_spec(FetchAccount::WorkloadIdentity(w), FetchState::AwaitingSts, FetchEvent::Sts(sts), s2, a),
    ensures
        a matches FetchAction::Finish(Ok(t)) && t.access_token == sts.access_token && t.expires_in
            == sts.expires_in && t.token_type == sts.token_type,
{
}

/// The form bodies put every value through percent-encoding, which leaves no `&`, `=`, `+` or
/// space in it: each value stays one field.
pub proof fn lemma_form_values_stay_fields(v: Seq<char>)
    ensures
        forall|i: int| 0 <= i < percent_encode(utf8_of(v)).len() ==> {
            let b = #[trigger] percent_encode(utf8_of(v))[i];
            b != 38u8 && b != 61u8 && b != 43u8 && b != 32u8
        },
{
    lemma_percent_encode_bytes(utf8_of(v));
}

} // verus!
