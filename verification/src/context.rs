//! The request layer of the page's shared context: every request the page
//! can make, the URL it goes to, whether it needs the token, its method and
//! body, and what sending it comes to with the stored token.

use vstd::prelude::*;
use crate::datatypes::NewThreadRequest;
use crate::fetch::{method_body, method_name, spec_method_name, Auth, HttpMethod};
use crate::ids::{BucketUuid, QuestionUuid};
use crate::jwt::{get_and_refresh_jwt, refresh_due, StoredToken, TokenError};
use crate::requests::{
    path_around_id, path_with_id, EditPostRequest, NewAnswerRequest, NewBucketRequest,
    NewPostRequest, NewQuestionRequest, NewUserRequest,
};
use crate::sending::{opt_view, spec_body, OutgoingRequest};
use crate::text::{bool_text, push_bool, push_decimal, push_signed_decimal, signed_decimal_text, decimal_text};

verus! {

/// The API root of the context's requests.
pub const CONTEXT_API_BASE: &'static str = "http://10.0.0.187/api";

/// Every request the page's context can make.
#[derive(Debug)]
pub enum RequestWrapper {
    Login(crate::requests::LoginRequest),
    Reauth,
    CreateUser(NewUserRequest),
    CreateThread(NewThreadRequest),
    GetThreads { forum_id: i32, page_index: usize },
    GetForums,
    GetForum { forum_id: i32 },
    GetThread { thread_id: i32 },
    CreatePostResponse(NewPostRequest),
    UpdatePost(EditPostRequest),
    GetPublicBuckets,
    GetBucketsForUser,
    GetBucket { bucket_id: BucketUuid },
    CreateBucket(NewBucketRequest),
    GetRandomQuestion { bucket_id: BucketUuid },
    GetQuestions { bucket_id: BucketUuid },
    AnswerQuestion(NewAnswerRequest),
    CreateQuestion(NewQuestionRequest),
    DeleteQuestion { question_id: QuestionUuid },
    PutQuestionBackInBucket { question_id: QuestionUuid },
    SetBucketPublicStatus { bucket_id: BucketUuid, is_public: bool },
    ApproveUserForBucket { bucket_id: BucketUuid, user_id: i32 },
    RemoveUserFromBucket { bucket_id: BucketUuid, user_id: i32 },
    GetUnapprovedUsersForOwnedBuckets,
    GetUsersInBucket { bucket_id: BucketUuid },
    GetIsUserOwnerOfBucket { bucket_id: BucketUuid },
    CreateJoinBucketRequest { bucket_id: BucketUuid },
    GetNumberOfQuestionsInBucket { bucket_id: BucketUuid },
}

fn path_with_number(prefix: &str, n: i32) -> (r: String)
    ensures
        r@ == prefix@ + signed_decimal_text(n as int),
{
    let mut s = String::from_str(prefix);
    push_signed_decimal(&mut s, n as i64);
    s
}

impl RequestWrapper {
    /// The path of the request below the API root.
    pub open spec fn spec_path(&self) -> Seq<char> {
        match *self {
            RequestWrapper::Login(_) => "auth/login"@,
            RequestWrapper::Reauth => "auth/reauth"@,
            RequestWrapper::CreateUser(_) => "user/"@,
            RequestWrapper::CreateThread(_) => "thread/create"@,
            RequestWrapper::GetThreads { forum_id, page_index } => "thread/get/"@
                + signed_decimal_text(forum_id as int) + "/"@ + decimal_text(page_index as nat),
            RequestWrapper::GetForums => "forum/forums"@,
            RequestWrapper::GetForum { forum_id } => "forum/"@ + signed_decimal_text(forum_id as int),
            RequestWrapper::GetThread { thread_id } => "thread/"@ + signed_decimal_text(
                thread_id as int,
            ),
            RequestWrapper::CreatePostResponse(_) => "post/create"@,
            RequestWrapper::UpdatePost(_) => "post/edit"@,
            RequestWrapper::GetPublicBuckets => "buckets/public"@,
            RequestWrapper::GetBucketsForUser => "buckets/approved"@,
            RequestWrapper::GetBucket { bucket_id } => "buckets/"@ + bucket_id.text(),
            RequestWrapper::CreateBucket(_) => "buckets/create"@,
            RequestWrapper::GetRandomQuestion { bucket_id } => "question/random_question?bucket_uuid="@
                + bucket_id.text(),
            RequestWrapper::GetQuestions { bucket_id } => "question?bucket_uuid="@ + bucket_id.text(),
            RequestWrapper::AnswerQuestion(_) => "answer/create"@,
            RequestWrapper::CreateQuestion(_) => "question/create"@,
            RequestWrapper::DeleteQuestion { question_id } => "question/"@ + question_id.text(),
            RequestWrapper::PutQuestionBackInBucket { question_id } => "question/"@
                + question_id.text() + "/into_bucket"@,
            RequestWrapper::SetBucketPublicStatus { bucket_id, is_public } => "buckets/"@
                + bucket_id.text() + "/publicity?is_public="@ + bool_text(is_public),
            RequestWrapper::ApproveUserForBucket { bucket_id, user_id } => "buckets/"@
                + bucket_id.text() + "/approval?user_id="@ + signed_decimal_text(user_id as int),
            RequestWrapper::RemoveUserFromBucket { bucket_id, user_id } => "buckets/"@
                + bucket_id.text() + "?user_id="@ + signed_decimal_text(user_id as int),
            RequestWrapper::GetUnapprovedUsersForOwnedBuckets => "buckets/unapproved_users_for_owned_buckets"@,
            RequestWrapper::GetUsersInBucket { bucket_id } => "buckets/"@ + bucket_id.text()
                + "/users"@,
            RequestWrapper::GetIsUserOwnerOfBucket { bucket_id } => "buckets/"@ + bucket_id.text()
                + "/user_owner_status"@,
            RequestWrapper::CreateJoinBucketRequest { bucket_id } => "buckets/"@ + bucket_id.text()
                + "/user_join_request"@,
            RequestWrapper::GetNumberOfQuestionsInBucket { bucket_id } => "/api/question/quantity_in_bucket?bucket_uuid="@
                + bucket_id.text(),
        }
    }

    /// The URL of the request: the API root, `/`, and the path.
    pub open spec fn spec_url(&self) -> Seq<char> {
        CONTEXT_API_BASE@ + "/"@ + self.spec_path()
    }

    fn resolve_path(&self) -> (r: String)
        ensures
            r@ == self.spec_path(),
    {
        match self {
            RequestWrapper::Login(_) => String::from_str("auth/login"),
            RequestWrapper::Reauth => String::from_str("auth/reauth"),
            RequestWrapper::CreateUser(_) => String::from_str("user/"),
            RequestWrapper::CreateThread(_) => String::from_str("thread/create"),
            RequestWrapper::GetThreads { forum_id, page_index } => {
                let mut s = path_with_number("thread/get/", *forum_id);
                s.append("/");
                push_decimal(&mut s, *page_index as u64);
                s
            },
            RequestWrapper::GetForums => String::from_str("forum/forums"),
            RequestWrapper::GetForum { forum_id } => path_with_number("forum/", *forum_id),
            RequestWrapper::GetThread { thread_id } => path_with_number("thread/", *thread_id),
            RequestWrapper::CreatePostResponse(_) => String::from_str("post/create"),
            RequestWrapper::UpdatePost(_) => String::from_str("post/edit"),
            RequestWrapper::GetPublicBuckets => String::from_str("buckets/public"),
            RequestWrapper::GetBucketsForUser => String::from_str("buckets/approved"),
            RequestWrapper::GetBucket { bucket_id } => path_with_id("buckets/", bucket_id),
            RequestWrapper::CreateBucket(_) => String::from_str("buckets/create"),
            RequestWrapper::GetRandomQuestion { bucket_id } => path_with_id(
                "question/random_question?bucket_uuid=",
                bucket_id,
            ),
            RequestWrapper::GetQuestions { bucket_id } => path_with_id(
                "question?bucket_uuid=",
                bucket_id,
            ),
            RequestWrapper::AnswerQuestion(_) => String::from_str("answer/create"),
            RequestWrapper::CreateQuestion(_) => String::from_str("question/create"),
            RequestWrapper::DeleteQuestion { question_id } => path_with_id("question/", question_id),
            RequestWrapper::PutQuestionBackInBucket { question_id } => path_around_id(
                "question/",
                question_id,
                "/into_bucket",
            ),
            RequestWrapper::SetBucketPublicStatus { bucket_id, is_public } => {
                let mut s = path_around_id("buckets/", bucket_id, "/publicity?is_public=");
                push_bool(&mut s, *is_public);
                s
            },
            RequestWrapper::ApproveUserForBucket { bucket_id, user_id } => {
                let mut s = path_around_id("buckets/", bucket_id, "/approval?user_id=");
                push_signed_decimal(&mut s, *user_id as i64);
                s
            },
            RequestWrapper::RemoveUserFromBucket { bucket_id, user_id } => {
                let mut s = path_around_id("buckets/", bucket_id, "?user_id=");
                push_signed_decimal(&mut s, *user_id as i64);
                s
            },
            RequestWrapper::GetUnapprovedUsersForOwnedBuckets => String::from_str(
                "buckets/unapproved_users_for_owned_buckets",
            ),
            RequestWrapper::GetUsersInBucket { bucket_id } => path_around_id(
                "buckets/",
                bucket_id,
                "/users",
            ),
            RequestWrapper::GetIsUserOwnerOfBucket { bucket_id } => path_around_id(
                "buckets/",
                bucket_id,
                "/user_owner_status",
            ),
            RequestWrapper::CreateJoinBucketRequest { bucket_id } => path_around_id(
                "buckets/",
                bucket_id,
                "/user_join_request",
            ),
            RequestWrapper::GetNumberOfQuestionsInBucket { bucket_id } => path_with_id(
                "/api/question/quantity_in_bucket?bucket_uuid=",
                bucket_id,
            ),
        }
    }

    /// Converts the request into its URL.
    pub fn resolve_url(&self) -> (r: String)
        ensures
            r@ == self.spec_url(),
    {
        let mut url = String::from_str(CONTEXT_API_BASE);
        url.append("/");
        let path = self.resolve_path();
        url.append(path.as_str());
        url
    }

    /// Whether the request needs the token; the renewal request has no
    /// answer here.
    pub open spec fn spec_auth(&self) -> Auth {
        match *self {
            RequestWrapper::Login(_) => Auth::NotRequired,
            RequestWrapper::CreateUser(_) => Auth::NotRequired,
            RequestWrapper::GetThreads { .. } => Auth::NotRequired,
            RequestWrapper::GetForums => Auth::NotRequired,
            RequestWrapper::GetForum { .. } => Auth::NotRequired,
            RequestWrapper::GetThread { .. } => Auth::NotRequired,
            RequestWrapper::GetRandomQuestion { .. } => Auth::NotRequired,
            RequestWrapper::GetQuestions { .. } => Auth::NotRequired,
            _ => Auth::Required,
        }
    }

    /// Whether the request needs the token.
    pub fn resolve_auth(&self) -> (r: Auth)
        requires
            !(*self is Reauth),
        ensures
            r == self.spec_auth(),
    {
        match self {
            RequestWrapper::Login(_) => Auth::NotRequired,
            RequestWrapper::CreateUser(_) => Auth::NotRequired,
            RequestWrapper::GetThreads { .. } => Auth::NotRequired,
            RequestWrapper::GetForums => Auth::NotRequired,
            RequestWrapper::GetForum { .. } => Auth::NotRequired,
            RequestWrapper::GetThread { .. } => Auth::NotRequired,
            RequestWrapper::GetRandomQuestion { .. } => Auth::NotRequired,
            RequestWrapper::GetQuestions { .. } => Auth::NotRequired,
            _ => Auth::Required,
        }
    }

    /// The method name and body of the request as they go on the wire;
    /// `payload` is the JSON text of the record the request carries, which
    /// becomes the body of those that carry one (the others ignore it).
    pub open spec fn spec_wire(&self, payload: Seq<char>) -> (Seq<char>, Option<Seq<char>>) {
        match *self {
            RequestWrapper::Login(_) => ("POST"@, Some(payload)),
            RequestWrapper::CreateUser(_) => ("POST"@, Some(payload)),
            RequestWrapper::CreateThread(_) => ("POST"@, Some(payload)),
            RequestWrapper::CreatePostResponse(_) => ("POST"@, Some(payload)),
            RequestWrapper::UpdatePost(_) => ("PUT"@, Some(payload)),
            RequestWrapper::CreateBucket(_) => ("POST"@, Some(payload)),
            RequestWrapper::AnswerQuestion(_) => ("POST"@, Some(payload)),
            RequestWrapper::CreateQuestion(_) => ("POST"@, Some(payload)),
            RequestWrapper::DeleteQuestion { .. } => ("DELETE"@, None),
            RequestWrapper::RemoveUserFromBucket { .. } => ("DELETE"@, None),
            RequestWrapper::PutQuestionBackInBucket { .. } => ("PUT"@, Some(Seq::<char>::empty())),
            RequestWrapper::SetBucketPublicStatus { .. } => ("PUT"@, Some(Seq::<char>::empty())),
            RequestWrapper::ApproveUserForBucket { .. } => ("PUT"@, Some(Seq::<char>::empty())),
            RequestWrapper::CreateJoinBucketRequest { .. } => ("POST"@, Some(Seq::<char>::empty())),
            _ => ("GET"@, None),
        }
    }

    /// The method and body of the request.
    pub fn resolve_body_and_method(&self, payload_json: String) -> (r: HttpMethod)
        ensures
            (spec_method_name(r), spec_body(r)) == self.spec_wire(payload_json@),
    {
        match self {
            RequestWrapper::Login(_) => HttpMethod::Post(payload_json),
            RequestWrapper::CreateUser(_) => HttpMethod::Post(payload_json),
            RequestWrapper::CreateThread(_) => HttpMethod::Post(payload_json),
            RequestWrapper::CreatePostResponse(_) => HttpMethod::Post(payload_json),
            RequestWrapper::UpdatePost(_) => HttpMethod::Put(payload_json),
            RequestWrapper::CreateBucket(_) => HttpMethod::Post(payload_json),
            RequestWrapper::AnswerQuestion(_) => HttpMethod::Post(payload_json),
            RequestWrapper::CreateQuestion(_) => HttpMethod::Post(payload_json),
            RequestWrapper::DeleteQuestion { .. } => HttpMethod::Delete,
            RequestWrapper::RemoveUserFromBucket { .. } => HttpMethod::Delete,
            RequestWrapper::PutQuestionBackInBucket { .. } => HttpMethod::Put(String::new()),
            RequestWrapper::SetBucketPublicStatus { .. } => HttpMethod::Put(String::new()),
            RequestWrapper::ApproveUserForBucket { .. } => HttpMethod::Put(String::new()),
            RequestWrapper::CreateJoinBucketRequest { .. } => HttpMethod::Post(String::new()),
            _ => HttpMethod::Get,
        }
    }
}

/// The route the page goes to when a request cannot be made.
pub open spec fn login_page_route() -> Seq<char> {
    "/auth/login"@
}

/// The context's request `q` goes to `url` with the given method name and
/// body, with the token (as it is stored) as its header when there is one.
pub open spec fn is_context_request(
    q: OutgoingRequest,
    wire: (Seq<char>, Option<Seq<char>>),
    url: Seq<char>,
    token: Option<Seq<char>>,
) -> bool {
    &&& q.method@ == wire.0
    &&& q.url@ == url
    &&& opt_view(q.authorization) == token
    &&& opt_view(q.body) == wire.1
}

/// The context's renewal request for `token`.
pub open spec fn is_context_reauth(q: OutgoingRequest, token: Seq<char>) -> bool {
    is_context_request(q, ("GET"@, None), RequestWrapper::Reauth.spec_url(), Some(token))
}

/// The page's shared context, as far as requests go.
#[derive(Debug)]
pub struct Context {}

impl Context {
    /// A new context.
    pub fn new() -> (r: Context) {
        Context {  }
    }

    /// What sending `request`, whose record has the JSON text `payload`,
    /// comes to at `now`: with a readable stored token, the request carries
    /// it (and a renewal goes beside it when the token is more than a day
    /// old); without one, a request that needs a token is refused with the
    /// reason and any other goes without.
    pub open spec fn made(
        request: RequestWrapper,
        payload: Seq<char>,
        stored: StoredToken,
        now: i64,
        r: Result<(OutgoingRequest, Option<OutgoingRequest>), TokenError>,
    ) -> bool {
        let wire = request.spec_wire(payload);
        match stored {
            StoredToken::Present { token, payload: Ok(jwt) } => r matches Ok((q, reauth))
                && is_context_request(q, wire, request.spec_url(), Some(token@)) && if refresh_due(
                jwt.iat,
                now,
            ) {
                reauth matches Some(a) && is_context_reauth(a, token@)
            } else {
                reauth is None
            },
            _ => {
                let e = match stored {
                    StoredToken::Present { payload: Err(e), .. } => TokenError::Malformed(e),
                    _ => TokenError::NoToken,
                };
                if request.spec_auth() == Auth::Required {
                    r == Err::<(OutgoingRequest, Option<OutgoingRequest>), TokenError>(e)
                } else {
                    r matches Ok((q, reauth)) && is_context_request(q, wire, request.spec_url(), None)
                        && reauth is None
                }
            },
        }
    }

    /// Plans `request`, whose record has the JSON text `payload_json`.
    pub fn make_request(
        &self,
        request: &RequestWrapper,
        payload_json: String,
        stored: &StoredToken,
        now: i64,
    ) -> (r: Result<(OutgoingRequest, Option<OutgoingRequest>), TokenError>)
        requires
            !(*request is Reauth),
        ensures
            Self::made(*request, payload_json@, *stored, now, r),
    {
        let url = request.resolve_url();
        let auth_requirement = request.resolve_auth();
        let body_and_method = request.resolve_body_and_method(payload_json);
        let (auth, reauth) = match get_and_refresh_jwt(stored, now) {
            Ok((token, refresh)) => {
                let reauth = if refresh {
                    Some(context_request(&HttpMethod::Get, RequestWrapper::Reauth.resolve_url(), Some(token.clone())))
                } else {
                    None
                };
                (Some(token), reauth)
            },
            Err(e) => {
                match auth_requirement {
                    Auth::Required => {
                        return Err(e);
                    },
                    Auth::NotRequired => (None, None),
                }
            },
        };
        Ok((context_request(&body_and_method, url, auth), reauth))
    }

    /// Plans `request`; when it cannot be made, the result is the route of
    /// the login page, where the user is taken.
    pub fn make_request_and_set_ft(
        &self,
        request: &RequestWrapper,
        payload_json: String,
        stored: &StoredToken,
        now: i64,
    ) -> (r: Result<(OutgoingRequest, Option<OutgoingRequest>), String>)
        requires
            !(*request is Reauth),
        ensures
            match r {
                Ok(plan) => Self::made(*request, payload_json@, *stored, now, Ok(plan)),
                Err(route) => route@ == login_page_route() && request.spec_auth() == Auth::Required
                    && !(*stored matches StoredToken::Present { payload: Ok(_), .. }),
            },
    {
        match self.make_request(request, payload_json, stored, now) {
            Ok(plan) => Ok(plan),
            Err(_) => Err(String::from_str("/auth/login")),
        }
    }
}

/// A context request that needs a token is made only with the stored token
/// (as it is stored), and is refused when no readable token is stored.
pub proof fn lemma_context_required_auth(
    request: RequestWrapper,
    payload: Seq<char>,
    stored: StoredToken,
    now: i64,
    r: Result<(OutgoingRequest, Option<OutgoingRequest>), TokenError>,
)
    requires
        Context::made(request, payload, stored, now, r),
        request.spec_auth() == Auth::Required,
    ensures
        r matches Ok((q, _)) ==> (stored matches StoredToken::Present { token, payload: Ok(_) }
            && opt_view(q.authorization) == Some(token@)),
        !(stored matches StoredToken::Present { payload: Ok(_), .. }) ==> r is Err,
{
}

fn context_request(method: &HttpMethod, url: String, authorization: Option<String>) -> (r:
    OutgoingRequest)
    ensures
        is_context_request(r, (spec_method_name(*method), spec_body(*method)), url@, opt_view(authorization)),
{
    let body = method_body(method);
    OutgoingRequest { method: String::from_str(method_name(method)), url, authorization, body }
}

/// Whether an answer with this status sends the user to the login page.
pub fn redirects_to_login(status: u16) -> (r: bool)
    ensures
        r == (status == 401),
{
    status == 401
}

/// An error that can occur while routing.
#[derive(Clone, Debug, PartialEq, Eq, Structural)]
pub enum RouterError {
    CouldNotGetLocationHref,
}

/// An error that can occur while reading a route.
#[derive(Clone, Debug)]
pub enum RoutingError {
    /// The route text could not be parsed; it is handed back.
    CouldNotParseRoute { route: String },
    /// The whole URL could not be parsed; it is handed back.
    CouldNotParseUrl { full_url: String },
    /// The route text did not start with a slash.
    RouteDoesNotStartWithSlash,
    /// The route text was empty.
    RouteIsEmpty,
    /// The location could not be read from the browser.
    CouldNotGetLocationHref,
}

/// The page's location as the browser gave it (`None` when it could not),
/// or the routing error that stands for the failure.
pub fn get_location(href: Option<String>) -> (r: Result<String, RoutingError>)
    ensures
        match href {
            Some(h) => r == Ok::<String, RoutingError>(h),
            None => r matches Err(RoutingError::CouldNotGetLocationHref),
        },
{
    match href {
        Some(h) => Ok(h),
        None => Err(RoutingError::CouldNotGetLocationHref),
    }
}

} // verus!
