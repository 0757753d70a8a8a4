//! Turning a request into what goes on the wire: its method, URL, body and
//! `Authorization` header, whether the token is renewed on the way, and
//! what happens when no valid token is at hand.

use vstd::prelude::*;
use crate::fetch::{
    method_body, method_name, resolve_url, spec_method_name, spec_resolve_url, Auth, FetchError,
    FetchResponse, HttpMethod, API_BASE, BEARER,
};
use crate::jwt::{jwt_refresh_needed, refresh_due, StoredToken};

verus! {

/// A request ready to be handed to the browser; its content type is JSON.
#[derive(Debug)]
pub struct OutgoingRequest {
    pub method: String,
    pub url: String,
    pub authorization: Option<String>,
    pub body: Option<String>,
}

/// What a request comes to.
#[derive(Debug)]
pub enum RequestPlan {
    /// `request` is sent; `reauth` is the renewal of the token, sent
    /// beside it when one is due.
    Send { request: OutgoingRequest, reauth: Option<OutgoingRequest> },
    /// The request needs a token and no valid one is stored: nothing is
    /// sent and the user is taken to the login page.
    RedirectToLogin,
}

/// The content type of every request.
pub const CONTENT_TYPE: &'static str = "application/json";

/// The path of the request that renews the token.
pub const REAUTH_PATH: &'static str = "/auth/reauth";

/// The `Authorization` header that carries `token`.
pub open spec fn bearer_header(token: Seq<char>) -> Seq<char> {
    BEARER@ + seq![' '] + token
}

/// The body `method` sends, as text.
pub open spec fn spec_body(method: HttpMethod) -> Option<Seq<char>> {
    match method {
        HttpMethod::Post(b) => Some(b@),
        HttpMethod::Put(b) => Some(b@),
        _ => None,
    }
}

/// The views of an optional text.
pub open spec fn opt_view(o: Option<String>) -> Option<Seq<char>> {
    match o {
        Some(s) => Some(s@),
        None => None,
    }
}

/// `request` goes to `url` with `method`, the given header and the body
/// the method carries.
pub open spec fn is_request(
    request: OutgoingRequest,
    method: HttpMethod,
    url: Seq<char>,
    authorization: Option<Seq<char>>,
) -> bool {
    &&& request.method@ == spec_method_name(method)
    &&& request.url@ == url
    &&& opt_view(request.authorization) == authorization
    &&& opt_view(request.body) == spec_body(method)
}

/// The renewal request for `token`.
pub open spec fn is_reauth_request(request: OutgoingRequest, token: Seq<char>) -> bool {
    is_request(
        request,
        HttpMethod::Get,
        spec_resolve_url(API_BASE@, REAUTH_PATH@),
        Some(bearer_header(token)),
    )
}

/// The token that counts as valid at `now` (its expiry date is before
/// `now`), with the time it was issued.
pub open spec fn valid_token(stored: StoredToken, now: i64) -> Option<(Seq<char>, i64)> {
    match stored {
        StoredToken::Present { token, payload: Ok(jwt) } => if jwt.exp < now {
            Some((token@, jwt.iat))
        } else {
            None
        },
        _ => None,
    }
}

/// What a request to `path` with the given demand and method comes to at
/// `now`, with `stored` as the stored token: a valid token goes along as a
/// bearer header (and is renewed when more than a day old); without one, a
/// request that needs a token is not sent, and any other goes without.
pub open spec fn planned(
    r: RequestPlan,
    path: Seq<char>,
    auth: Auth,
    method: HttpMethod,
    stored: StoredToken,
    now: i64,
) -> bool {
    let url = spec_resolve_url(API_BASE@, path);
    match valid_token(stored, now) {
        Some((token, iat)) => r matches RequestPlan::Send { request, reauth } && is_request(
            request,
            method,
            url,
            Some(bearer_header(token)),
        ) && if refresh_due(iat, now) {
            reauth matches Some(q) && is_reauth_request(q, token)
        } else {
            reauth is None
        },
        None => if auth == Auth::Required {
            r is RedirectToLogin
        } else {
            r matches RequestPlan::Send { request, reauth } && is_request(request, method, url, None)
                && reauth is None
        },
    }
}

/// A request that needs a token never goes out without one, and any
/// request sent with a token carries it as a bearer header.
pub proof fn lemma_required_auth_always_carries_token(
    r: RequestPlan,
    path: Seq<char>,
    auth: Auth,
    method: HttpMethod,
    stored: StoredToken,
    now: i64,
)
    requires
        planned(r, path, auth, method, stored, now),
    ensures
        auth == Auth::Required ==> (r matches RequestPlan::Send { request, .. } ==> request.authorization is Some),
        r matches RequestPlan::Send { request, .. } ==> (request.authorization matches Some(a) ==> exists|
            t: Seq<char>,
        | a@ == bearer_header(t)),
        r is RedirectToLogin ==> auth == Auth::Required && valid_token(stored, now) is None,
{
    match valid_token(stored, now) {
        Some((token, iat)) => {
            if let RequestPlan::Send { request, .. } = r {
                if let Some(a) = request.authorization {
                    assert(a@ == bearer_header(token));
                }
            }
        },
        None => {},
    }
}

fn build_request(method: &HttpMethod, url: String, authorization: Option<String>) -> (r:
    OutgoingRequest)
    ensures
        r.method@ == spec_method_name(*method),
        r.url == url,
        r.authorization == authorization,
        opt_view(r.body) == spec_body(*method),
{
    let body = method_body(method);
    OutgoingRequest { method: String::from_str(method_name(method)), url, authorization, body }
}

fn bearer(token: &String) -> (r: String)
    ensures
        r@ == bearer_header(token@),
{
    let mut s = String::from_str(BEARER);
    s.append(" ");
    s.append(token.as_str());
    proof {
        reveal_strlit(" ");
    }
    s
}

/// The request that renews `token`.
pub fn reauth_request(token: &String) -> (r: OutgoingRequest)
    ensures
        is_reauth_request(r, token@),
{
    let url = resolve_url(API_BASE, REAUTH_PATH);
    build_request(&HttpMethod::Get, url, Some(bearer(token)))
}

/// Plans a request to `path` with the given demand and method at `now`.
pub fn make_request(path: &str, auth: Auth, body_and_method: HttpMethod, stored: &StoredToken, now: i64) -> (r:
    RequestPlan)
    ensures
        planned(r, path@, auth, body_and_method, *stored, now),
{
    let url = resolve_url(API_BASE, path);
    match stored.get_token_if_valid(now) {
        Some(token) => {
            let refresh = match stored {
                StoredToken::Present { payload, .. } => jwt_refresh_needed(payload, now),
                StoredToken::Absent => false,
            };
            let reauth = if refresh {
                Some(reauth_request(&token))
            } else {
                None
            };
            let request = build_request(&body_and_method, url, Some(bearer(&token)));
            RequestPlan::Send { request, reauth }
        },
        None => {
            if auth == Auth::Required {
                RequestPlan::RedirectToLogin
            } else {
                let request = build_request(&body_and_method, url, None);
                RequestPlan::Send { request, reauth: None }
            }
        },
    }
}

/// What the token's renewal leads to.
#[derive(Debug)]
pub enum ReauthOutcome {
    /// The new token is stored.
    Store(String),
    /// The token is removed and the user goes to the login page.
    LogOut,
}

/// The outcome of the renewal, from the status and text of its answer: a
/// 2xx answer stores its text, any other logs the user out.
pub fn handle_reauth_response(status: u16, body: String) -> (r: ReauthOutcome)
    ensures
        200 <= status <= 299 ==> r == ReauthOutcome::Store(body),
        !(200 <= status <= 299) ==> r is LogOut,
{
    if 200 <= status && status <= 299 {
        ReauthOutcome::Store(body)
    } else {
        ReauthOutcome::LogOut
    }
}

/// What a part of the page uses to send its requests.
#[derive(Debug)]
pub struct Networking {}

impl Networking {
    /// A new sender.
    pub fn new() -> (r: Networking) {
        Networking {  }
    }

    /// Sends a request whose answer is decoded as JSON: the plan of what
    /// goes out, and the message the part of the page hears at once, which
    /// says the request started even when it was not sent. The answer, when
    /// it comes, is read by `interpret_response`.
    pub fn fetch<U>(
        &self,
        path: &str,
        auth: Auth,
        body_and_method: HttpMethod,
        stored: &StoredToken,
        now: i64,
    ) -> (r: (RequestPlan, FetchResponse<U>))
        ensures
            planned(r.0, path@, auth, body_and_method, *stored, now),
            r.1 is Started,
    {
        (make_request(path, auth, body_and_method, stored, now), FetchResponse::Started)
    }

    /// Like `fetch`, for an answer kept as text (read by
    /// `interpret_text_response`).
    pub fn fetch_string(
        &self,
        path: &str,
        auth: Auth,
        body_and_method: HttpMethod,
        stored: &StoredToken,
        now: i64,
    ) -> (r: (RequestPlan, FetchResponse<String>))
        ensures
            planned(r.0, path@, auth, body_and_method, *stored, now),
            r.1 is Started,
    {
        (make_request(path, auth, body_and_method, stored, now), FetchResponse::Started)
    }
}

/// The agent that sends requests for the parts of the page and passes
/// their outcomes back.
#[derive(Debug)]
pub struct FetchAgent {}

impl FetchAgent {
    /// A new agent.
    pub fn create() -> (r: FetchAgent) {
        FetchAgent {  }
    }

    /// Takes a request: when it can be sent, it goes out and the asker hears
    /// that it started; when it needs a token that is not there, the asker
    /// hears that authentication is absent and the user goes to the login
    /// page (`r.2`).
    pub fn handle<W>(
        &self,
        path: &str,
        auth: Auth,
        body_and_method: HttpMethod,
        stored: &StoredToken,
        now: i64,
    ) -> (r: (RequestPlan, FetchResponse<W>, bool))
        ensures
            planned(r.0, path@, auth, body_and_method, *stored, now),
            r.0 is Send ==> (r.1 is Started && !r.2),
            r.0 is RedirectToLogin ==> (r.1 matches FetchResponse::Error(FetchError::AuthAbsent)
                && r.2),
    {
        let plan = make_request(path, auth, body_and_method, stored, now);
        match plan {
            RequestPlan::Send { .. } => (plan, FetchResponse::Started, false),
            RequestPlan::RedirectToLogin => {
                let (response, redirect) = Self::forward(FetchResponse::Error(FetchError::AuthAbsent));
                (plan, response, redirect)
            },
        }
    }

    /// What the agent makes of an answer with status `status`, text `body`
    /// and `decoded` the text decoded (when it decodes): a 401 is
    /// unauthorized, a 2xx answer succeeds or fails to decode, any other
    /// status is a miscellaneous error.
    pub fn interpret<W>(status: u16, body: Option<String>, decoded: Option<W>) -> (r: FetchResponse<W>)
        requires
            200 <= status <= 299 ==> body is Some,
        ensures
            status == 401 ==> r matches FetchResponse::Error(FetchError::Unauthorized),
            200 <= status <= 299 && decoded is Some ==> r == FetchResponse::Success(decoded->0),
            200 <= status <= 299 && decoded is None ==> (r matches FetchResponse::Error(
                FetchError::DecodeError(text),
            ) && text@ == body->0@),
            !(status == 401 || (200 <= status <= 299)) ==> r matches FetchResponse::Error(
                FetchError::Misc,
            ),
    {
        if status == 401 {
            FetchResponse::Error(FetchError::Unauthorized)
        } else if 200 <= status && status <= 299 {
            match decoded {
                Some(w) => FetchResponse::Success(w),
                None => FetchResponse::Error(FetchError::DecodeError(body.unwrap())),
            }
        } else {
            FetchResponse::Error(FetchError::Misc)
        }
    }

    /// Passes an outcome to the asker unchanged; an unauthorized or absent
    /// authentication also sends the user to the login page (`r.1`).
    pub fn forward<W>(response: FetchResponse<W>) -> (r: (FetchResponse<W>, bool))
        ensures
            r.0 == response,
            r.1 == (response matches FetchResponse::Error(e) && (e is Unauthorized
                || e is AuthAbsent)),
    {
        let redirect = match &response {
            FetchResponse::Error(FetchError::Unauthorized) => true,
            FetchResponse::Error(FetchError::AuthAbsent) => true,
            _ => false,
        };
        (response, redirect)
    }
}

} // verus!
