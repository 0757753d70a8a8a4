//! What a network request needs and what its outcome means: the request's
//! method and authentication demand, the URL it goes to, the interpretation
//! of the HTTP status that comes back, and the plan for sending it.

use vstd::prelude::*;

verus! {

/// Whether a request must carry the user's token.
#[derive(Clone, Copy, Debug, PartialEq, Eq, Structural)]
pub enum Auth {
    Required,
    NotRequired,
}

/// The HTTP method of a request; `Post` and `Put` carry the body.
#[derive(Clone, Debug)]
pub enum HttpMethod {
    Get,
    Post(String),
    Put(String),
    Delete,
}

/// Why a request did not succeed.
#[derive(Clone, Debug)]
pub enum FetchError {
    /// The response body could not be decoded; it is kept here.
    DecodeError(String),
    /// The response was a 401.
    Unauthorized,
    /// No token was present although the request needs one.
    AuthAbsent,
    /// The response was a 404.
    ResourceNotFound,
    /// The response was a 400.
    BadRequest,
    /// The response was a 403.
    Forbidden,
    /// Any other status.
    Misc,
}

/// The state of a request as the requester sees it.
#[derive(Clone, Debug)]
pub enum FetchResponse<T> {
    /// The request worked; this is the decoded answer.
    Success(T),
    /// The request failed.
    Error(FetchError),
    /// The request has been sent.
    Started,
}

/// `out` is what mapping `r` by `f` gives: a success holds a result of `f`
/// on the success's value; errors and `Started` pass unchanged.
pub open spec fn mapped<T, U, F: Fn(T) -> U>(r: FetchResponse<T>, f: F, out: FetchResponse<U>) -> bool {
    match r {
        FetchResponse::Success(t) => out matches FetchResponse::Success(u) && call_ensures(
            f,
            (t,),
            u,
        ),
        FetchResponse::Error(e) => out == FetchResponse::<U>::Error(e),
        FetchResponse::Started => out == FetchResponse::<U>::Started,
    }
}

impl<T> FetchResponse<T> {
    /// Converts a successful answer with `f`; errors and `Started` pass unchanged.
    pub fn map<U, F: Fn(T) -> U>(self, f: F) -> (r: FetchResponse<U>)
        requires
            self matches FetchResponse::Success(t) ==> call_requires(f, (t,)),
        ensures
            mapped(self, f, r),
    {
        match self {
            FetchResponse::Success(t) => FetchResponse::Success(f(t)),
            FetchResponse::Error(e) => FetchResponse::Error(e),
            FetchResponse::Started => FetchResponse::Started,
        }
    }
}

/// Mapping by a function that returns its argument gives the response back.
pub proof fn lemma_map_identity<T, F: Fn(T) -> T>(r: FetchResponse<T>, f: F, out: FetchResponse<T>)
    requires
        mapped(r, f, out),
        forall|t: T, u: T| call_ensures(f, (t,), u) ==> u == t,
    ensures
        out == r,
{
}

/// Mapping by `f` and then by `g` gives what mapping by `h` gives, where `h`
/// returns for each argument what `g` returns on what `f` returns.
pub proof fn lemma_map_composition<T, U, V, F: Fn(T) -> U, G: Fn(U) -> V, H: Fn(T) -> V>(
    r: FetchResponse<T>,
    f: F,
    g: G,
    h: H,
    mid: FetchResponse<U>,
    out: FetchResponse<V>,
    direct: FetchResponse<V>,
)
    requires
        mapped(r, f, mid),
        mapped(mid, g, out),
        mapped(r, h, direct),
        forall|t: T, u: U, v: V, w: V|
            call_ensures(f, (t,), u) && call_ensures(g, (u,), v) && call_ensures(h, (t,), w)
                ==> v == w,
    ensures
        out == direct,
{
    match r {
        FetchResponse::Success(t) => {
            let u = mid->Success_0;
            let v = out->Success_0;
            let w = direct->Success_0;
            assert(call_ensures(f, (t,), u) && call_ensures(g, (u,), v) && call_ensures(h, (t,), w));
        },
        _ => {},
    }
}

/// The scheme of the token that goes into the `Authorization` header.
pub const BEARER: &'static str = "Bearer";

/// The API root that request paths are resolved against.
pub const API_BASE: &'static str = "http://www.weekendatjo.es/api";

/// `s` with its leading `/` characters removed.
pub open spec fn trim_leading_slashes(s: Seq<char>) -> Seq<char>
    decreases s.len(),
{
    if s.len() > 0 && s[0] == '/' {
        trim_leading_slashes(s.drop_first())
    } else {
        s
    }
}

proof fn lemma_trim_leading_slashes_skip(s: Seq<char>, k: int)
    requires
        0 <= k <= s.len(),
        forall|j: int| 0 <= j < k ==> s[j] == '/',
    ensures
        trim_leading_slashes(s) == trim_leading_slashes(s.skip(k)),
    decreases k,
{
    if k > 0 {
        assert(s.skip(1) =~= s.drop_first());
        lemma_trim_leading_slashes_skip(s.drop_first(), k - 1);
        assert(s.drop_first().skip(k - 1) =~= s.skip(k));
    } else {
        assert(s.skip(0) =~= s);
    }
}

/// The URL of `path` below `api_base`: the base, one `/`, and the path
/// without its leading slashes.
pub open spec fn spec_resolve_url(api_base: Seq<char>, path: Seq<char>) -> Seq<char> {
    api_base + seq!['/'] + trim_leading_slashes(path)
}

/// Resolves `path` below `api_base`.
pub fn resolve_url(api_base: &str, path: &str) -> (r: String)
    ensures
        r@ == spec_resolve_url(api_base@, path@),
{
    let len = path.unicode_len();
    let mut k: usize = 0;
    while k < len && path.get_char(k) == '/'
        invariant
            len == path@.len(),
            k <= len,
            forall|j: int| 0 <= j < k ==> path@[j] == '/',
        decreases len - k,
    {
        k = k + 1;
    }
    let rest = path.substring_char(k, len);
    proof {
        lemma_trim_leading_slashes_skip(path@, k as int);
        assert(path@.skip(k as int) =~= rest@);
        if k < len {
            assert(rest@[0] != '/');
        }
    }
    let mut url = String::from_str(api_base);
    url.append("/");
    url.append(rest);
    proof {
        reveal_strlit("/");
    }
    url
}

/// The name of an HTTP method as it goes on the wire.
pub open spec fn spec_method_name(method: HttpMethod) -> Seq<char> {
    match method {
        HttpMethod::Get => "GET"@,
        HttpMethod::Post(_) => "POST"@,
        HttpMethod::Put(_) => "PUT"@,
        HttpMethod::Delete => "DELETE"@,
    }
}

/// The name of `method` as it goes on the wire.
pub fn method_name(method: &HttpMethod) -> (r: &'static str)
    ensures
        r@ == spec_method_name(*method),
{
    match method {
        HttpMethod::Get => "GET",
        HttpMethod::Post(_) => "POST",
        HttpMethod::Put(_) => "PUT",
        HttpMethod::Delete => "DELETE",
    }
}

/// The body that `method` sends, if any.
pub fn method_body(method: &HttpMethod) -> (r: Option<String>)
    ensures
        match *method {
            HttpMethod::Post(b) => r matches Some(s) && s@ == b@,
            HttpMethod::Put(b) => r matches Some(s) && s@ == b@,
            _ => r is None,
        },
{
    match method {
        HttpMethod::Post(b) => Some(b.clone()),
        HttpMethod::Put(b) => Some(b.clone()),
        _ => None,
    }
}

/// What a component receives for an HTTP answer with status `status`:
/// `body` is the answer's text and `decoded` that text decoded as the
/// expected type (`None` when it does not decode). The second part of the
/// result says whether the user is sent to the login page.
pub fn interpret_response<T>(status: u16, body: Option<String>, decoded: Option<T>) -> (r: (
    FetchResponse<T>,
    bool,
))
    requires
        200 <= status <= 299 ==> body is Some,
    ensures
        r.1 == (status == 401),
        status == 401 ==> r.0 matches FetchResponse::Error(FetchError::Unauthorized),
        status == 404 ==> r.0 matches FetchResponse::Error(FetchError::ResourceNotFound),
        status == 403 ==> r.0 matches FetchResponse::Error(FetchError::Forbidden),
        status == 400 ==> r.0 matches FetchResponse::Error(FetchError::BadRequest),
        200 <= status <= 299 && decoded is Some ==> r.0 == FetchResponse::Success(decoded->0),
        200 <= status <= 299 && decoded is None ==> (r.0 matches FetchResponse::Error(
            FetchError::DecodeError(text),
        ) && text@ == body->0@),
        !(status == 401 || status == 404 || status == 403 || status == 400 || (200 <= status
            <= 299)) ==> r.0 matches FetchResponse::Error(FetchError::Misc),
{
    if status == 401 {
        (FetchResponse::Error(FetchError::Unauthorized), true)
    } else if status == 404 {
        (FetchResponse::Error(FetchError::ResourceNotFound), false)
    } else if status == 403 {
        (FetchResponse::Error(FetchError::Forbidden), false)
    } else if status == 400 {
        (FetchResponse::Error(FetchError::BadRequest), false)
    } else if 200 <= status && status <= 299 {
        match decoded {
            Some(t) => (FetchResponse::Success(t), false),
            None => {
                let text = body.unwrap();
                (FetchResponse::Error(FetchError::DecodeError(text)), false)
            },
        }
    } else {
        (FetchResponse::Error(FetchError::Misc), false)
    }
}

/// Like `interpret_response`, for a request whose answer is kept as text:
/// a 2xx answer succeeds with its body.
pub fn interpret_text_response(status: u16, body: Option<String>) -> (r: (
    FetchResponse<String>,
    bool,
))
    requires
        200 <= status <= 299 ==> body is Some,
    ensures
        r.1 == (status == 401),
        status == 401 ==> r.0 matches FetchResponse::Error(FetchError::Unauthorized),
        status == 404 ==> r.0 matches FetchResponse::Error(FetchError::ResourceNotFound),
        status == 403 ==> r.0 matches FetchResponse::Error(FetchError::Forbidden),
        status == 400 ==> r.0 matches FetchResponse::Error(FetchError::BadRequest),
        200 <= status <= 299 ==> (r.0 matches FetchResponse::Success(text) && text@ == body->0@),
        !(status == 401 || status == 404 || status == 403 || status == 400 || (200 <= status
            <= 299)) ==> r.0 matches FetchResponse::Error(FetchError::Misc),
{
    if status == 401 {
        (FetchResponse::Error(FetchError::Unauthorized), true)
    } else if status == 404 {
        (FetchResponse::Error(FetchError::ResourceNotFound), false)
    } else if status == 403 {
        (FetchResponse::Error(FetchError::Forbidden), false)
    } else if status == 400 {
        (FetchResponse::Error(FetchError::BadRequest), false)
    } else if 200 <= status && status <= 299 {
        (FetchResponse::Success(body.unwrap()), false)
    } else {
        (FetchResponse::Error(FetchError::Misc), false)
    }
}

} // verus!
