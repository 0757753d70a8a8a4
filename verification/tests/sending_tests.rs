use frontend::context::{get_location, redirects_to_login, Context, RequestWrapper, RoutingError};
use frontend::fetch::{
    interpret_response, interpret_text_response, method_body, method_name, resolve_url, Auth, FetchError,
    FetchResponse, HttpMethod, API_BASE,
};
use frontend::ids::Uuid;
use frontend::jwt::{Jwt, JwtError, StoredToken, TokenError, ONE_DAY_SECONDS};
use frontend::requests::{LoginRequest, NewUserRequest};
use frontend::sending::{handle_reauth_response, make_request, reauth_request, FetchAgent, Networking, ReauthOutcome, RequestPlan};

fn token(iat: i64, exp: i64) -> StoredToken {
    StoredToken::Present {
        token: "abc.def.ghi".to_string(),
        payload: Ok(Jwt { sub: Uuid { value: 1 }, user_roles: vec![], exp, iat }),
    }
}

#[test]
fn urls_drop_leading_slashes_of_the_path() {
    assert_eq!(resolve_url("http://h/api", "/auth/reauth"), "http://h/api/auth/reauth");
    assert_eq!(resolve_url("http://h/api", "///x"), "http://h/api/x");
    assert_eq!(resolve_url("http://h/api", "forum/forums"), "http://h/api/forum/forums");
    assert_eq!(resolve_url("b", ""), "b/");
}

#[test]
fn methods_and_bodies() {
    assert_eq!(method_name(&HttpMethod::Get), "GET");
    assert_eq!(method_name(&HttpMethod::Post("x".to_string())), "POST");
    assert_eq!(method_name(&HttpMethod::Put(String::new())), "PUT");
    assert_eq!(method_name(&HttpMethod::Delete), "DELETE");
    assert_eq!(method_body(&HttpMethod::Post("x".to_string())), Some("x".to_string()));
    assert_eq!(method_body(&HttpMethod::Put("y".to_string())), Some("y".to_string()));
    assert_eq!(method_body(&HttpMethod::Get), None);
    assert_eq!(method_body(&HttpMethod::Delete), None);
}

#[test]
fn statuses_are_interpreted() {
    let (r, redirect) = interpret_response::<u8>(401, None, None);
    assert!(matches!(r, FetchResponse::Error(FetchError::Unauthorized)) && redirect);
    assert!(matches!(interpret_response::<u8>(404, None, None).0, FetchResponse::Error(FetchError::ResourceNotFound)));
    assert!(matches!(interpret_response::<u8>(403, None, None).0, FetchResponse::Error(FetchError::Forbidden)));
    assert!(matches!(interpret_response::<u8>(400, None, None).0, FetchResponse::Error(FetchError::BadRequest)));
    assert!(matches!(interpret_response::<u8>(500, None, None).0, FetchResponse::Error(FetchError::Misc)));
    let (r, redirect) = interpret_response(200, Some("7".to_string()), Some(7u8));
    assert!(matches!(r, FetchResponse::Success(7)) && !redirect);
    let (r, _) = interpret_response::<u8>(204, Some("oops".to_string()), None);
    assert!(matches!(r, FetchResponse::Error(FetchError::DecodeError(ref t)) if t == "oops"));
    let (r, _) = interpret_text_response(299, Some("text".to_string()));
    assert!(matches!(r, FetchResponse::Success(ref t) if t == "text"));
    assert!(matches!(interpret_text_response(302, None).0, FetchResponse::Error(FetchError::Misc)));
    assert!(interpret_text_response(401, None).1);
}

#[test]
fn map_converts_only_success() {
    let r = FetchResponse::Success(3u8).map(|x| x as u32 * 2);
    assert!(matches!(r, FetchResponse::Success(6)));
    let r: FetchResponse<u32> = FetchResponse::<u8>::Started.map(|x| x as u32);
    assert!(matches!(r, FetchResponse::Started));
    let r: FetchResponse<u32> = FetchResponse::<u8>::Error(FetchError::Misc).map(|x| x as u32);
    assert!(matches!(r, FetchResponse::Error(FetchError::Misc)));
}

#[test]
fn request_with_valid_token_carries_bearer_header() {
    let plan = make_request("/buckets/public", Auth::Required, HttpMethod::Get, &token(1000, 1500), 2000);
    match plan {
        RequestPlan::Send { request, reauth } => {
            assert_eq!(request.method, "GET");
            assert_eq!(request.url, format!("{}/buckets/public", API_BASE));
            assert_eq!(request.authorization, Some("Bearer abc.def.ghi".to_string()));
            assert_eq!(request.body, None);
            assert!(reauth.is_none());
        }
        RequestPlan::RedirectToLogin => panic!("the token is valid"),
    }
}

#[test]
fn old_token_is_renewed_beside_the_request() {
    let now = 1000 + ONE_DAY_SECONDS + 1;
    let plan = make_request("post/create", Auth::Required, HttpMethod::Post("{}".to_string()), &token(1000, now - 10), now);
    match plan {
        RequestPlan::Send { request, reauth } => {
            assert_eq!(request.body, Some("{}".to_string()));
            let reauth = reauth.expect("renewal");
            assert_eq!(reauth.method, "GET");
            assert_eq!(reauth.url, format!("{}/auth/reauth", API_BASE));
            assert_eq!(reauth.authorization, Some("Bearer abc.def.ghi".to_string()));
        }
        RequestPlan::RedirectToLogin => panic!("the token is valid"),
    }
    let r = reauth_request(&"t".to_string());
    assert_eq!(r.authorization, Some("Bearer t".to_string()));
}

#[test]
fn request_without_valid_token() {
    // The expiry date must lie before now.
    let unexpired = token(0, 10);
    assert!(matches!(make_request("x", Auth::Required, HttpMethod::Get, &unexpired, 10), RequestPlan::RedirectToLogin));
    assert!(matches!(make_request("x", Auth::Required, HttpMethod::Get, &unexpired, 5), RequestPlan::RedirectToLogin));
    assert!(matches!(make_request("x", Auth::Required, HttpMethod::Get, &unexpired, 11), RequestPlan::Send { .. }));
    assert!(matches!(make_request("x", Auth::Required, HttpMethod::Get, &StoredToken::Absent, 0), RequestPlan::RedirectToLogin));
    match make_request("forum/forums", Auth::NotRequired, HttpMethod::Get, &StoredToken::Absent, 0) {
        RequestPlan::Send { request, reauth } => {
            assert_eq!(request.authorization, None);
            assert!(reauth.is_none());
        }
        RequestPlan::RedirectToLogin => panic!("no token needed"),
    }
}

#[test]
fn agent_reports_started_or_absent_auth() {
    let agent = FetchAgent::create();
    let (plan, response, redirect) = agent.handle::<u8>("x", Auth::Required, HttpMethod::Get, &StoredToken::Absent, 0);
    assert!(matches!(plan, RequestPlan::RedirectToLogin));
    assert!(matches!(response, FetchResponse::Error(FetchError::AuthAbsent)));
    assert!(redirect);
    let (plan, response, redirect) = agent.handle::<u8>("x", Auth::NotRequired, HttpMethod::Delete, &StoredToken::Absent, 0);
    assert!(matches!(plan, RequestPlan::Send { .. }));
    assert!(matches!(response, FetchResponse::Started));
    assert!(!redirect);
    assert!(matches!(FetchAgent::interpret::<u8>(404, None, None), FetchResponse::Error(FetchError::Misc)));
    assert!(matches!(FetchAgent::interpret::<u8>(401, None, None), FetchResponse::Error(FetchError::Unauthorized)));
    assert!(matches!(FetchAgent::interpret(201, Some("1".to_string()), Some(1u8)), FetchResponse::Success(1)));
    assert!(FetchAgent::forward::<u8>(FetchResponse::Error(FetchError::Unauthorized)).1);
    assert!(!FetchAgent::forward::<u8>(FetchResponse::Error(FetchError::Forbidden)).1);
    assert!(!FetchAgent::forward::<u8>(FetchResponse::Started).1);
}

#[test]
fn reauth_outcomes() {
    assert!(matches!(handle_reauth_response(200, "new".to_string()), ReauthOutcome::Store(ref t) if t == "new"));
    assert!(matches!(handle_reauth_response(401, "x".to_string()), ReauthOutcome::LogOut));
}

#[test]
fn context_urls() {
    let b = Uuid { value: 0x67e55044_10b1_426f_9247_bb680e5fe0c8 };
    let base = "http://10.0.0.187/api";
    assert_eq!(RequestWrapper::GetForums.resolve_url(), format!("{}/forum/forums", base));
    assert_eq!(RequestWrapper::GetThreads { forum_id: -3, page_index: 12 }.resolve_url(), format!("{}/thread/get/-3/12", base));
    assert_eq!(RequestWrapper::GetThread { thread_id: 77 }.resolve_url(), format!("{}/thread/77", base));
    assert_eq!(
        RequestWrapper::SetBucketPublicStatus { bucket_id: b, is_public: false }.resolve_url(),
        format!("{}/buckets/67e55044-10b1-426f-9247-bb680e5fe0c8/publicity?is_public=false", base)
    );
    assert_eq!(
        RequestWrapper::ApproveUserForBucket { bucket_id: b, user_id: 5 }.resolve_url(),
        format!("{}/buckets/67e55044-10b1-426f-9247-bb680e5fe0c8/approval?user_id=5", base)
    );
    assert_eq!(
        RequestWrapper::GetNumberOfQuestionsInBucket { bucket_id: b }.resolve_url(),
        format!("{}//api/question/quantity_in_bucket?bucket_uuid=67e55044-10b1-426f-9247-bb680e5fe0c8", base)
    );
    assert_eq!(RequestWrapper::Reauth.resolve_url(), format!("{}/auth/reauth", base));
}

#[test]
fn context_auth_and_methods() {
    let b = Uuid { value: 9 };
    assert_eq!(RequestWrapper::GetForums.resolve_auth(), Auth::NotRequired);
    assert_eq!(RequestWrapper::GetBucket { bucket_id: b }.resolve_auth(), Auth::Required);
    let login = RequestWrapper::Login(LoginRequest { user_name: "u".to_string(), password: "p".to_string() });
    assert_eq!(login.resolve_auth(), Auth::NotRequired);
    assert!(matches!(login.resolve_body_and_method("{\"a\":1}".to_string()), HttpMethod::Post(ref b) if b == "{\"a\":1}"));
    assert!(matches!(RequestWrapper::DeleteQuestion { question_id: b }.resolve_body_and_method("x".to_string()), HttpMethod::Delete));
    assert!(matches!(RequestWrapper::CreateJoinBucketRequest { bucket_id: b }.resolve_body_and_method("x".to_string()), HttpMethod::Post(ref s) if s.is_empty()));
    assert!(matches!(RequestWrapper::PutQuestionBackInBucket { question_id: b }.resolve_body_and_method("x".to_string()), HttpMethod::Put(ref s) if s.is_empty()));
    assert!(matches!(RequestWrapper::GetForums.resolve_body_and_method("x".to_string()), HttpMethod::Get));
}

#[test]
fn context_requests_carry_raw_token() {
    let ctx = Context::new();
    let stored = token(1000, 5000);
    let (request, reauth) = ctx.make_request(&RequestWrapper::GetBucketsForUser, String::new(), &stored, 1001).expect("plan");
    assert_eq!(request.authorization, Some("abc.def.ghi".to_string()));
    assert_eq!(request.method, "GET");
    assert!(reauth.is_none());
    let (_, reauth) = ctx.make_request(&RequestWrapper::GetBucketsForUser, String::new(), &stored, 1000 + 2 * ONE_DAY_SECONDS).expect("plan");
    let reauth = reauth.expect("renewal");
    assert_eq!(reauth.url, "http://10.0.0.187/api/auth/reauth");
    assert_eq!(reauth.authorization, Some("abc.def.ghi".to_string()));
    let user = NewUserRequest { user_name: "u".to_string(), display_name: "d".to_string(), plaintext_password: "p".to_string() };
    let (request, _) = ctx.make_request(&RequestWrapper::CreateUser(user), "{}".to_string(), &StoredToken::Absent, 0).expect("no token needed");
    assert_eq!(request.authorization, None);
    assert_eq!(request.body, Some("{}".to_string()));
    let err = ctx.make_request(&RequestWrapper::GetPublicBuckets, String::new(), &StoredToken::Absent, 0);
    assert!(matches!(err, Err(TokenError::NoToken)));
    let bad = StoredToken::Present { token: "x".to_string(), payload: Err(JwtError::JsonDecodeFailure) };
    let err = ctx.make_request(&RequestWrapper::GetPublicBuckets, String::new(), &bad, 0);
    assert!(matches!(err, Err(TokenError::Malformed(JwtError::JsonDecodeFailure))));
    let routed = ctx.make_request_and_set_ft(&RequestWrapper::GetPublicBuckets, String::new(), &StoredToken::Absent, 0);
    assert_eq!(routed.err(), Some("/auth/login".to_string()));
}

#[test]
fn routing_helpers() {
    assert!(redirects_to_login(401));
    assert!(!redirects_to_login(403));
    assert_eq!(get_location(Some("http://x/".to_string())).ok(), Some("http://x/".to_string()));
    assert!(matches!(get_location(None), Err(RoutingError::CouldNotGetLocationHref)));
}

#[test]
fn networking_reports_started_even_when_not_sent() {
    let networking = Networking::new();
    let (plan, response) = networking.fetch::<u8>("buckets/public", Auth::Required, HttpMethod::Get, &StoredToken::Absent, 0);
    assert!(matches!(plan, RequestPlan::RedirectToLogin));
    assert!(matches!(response, FetchResponse::Started));
    let (plan, response) = networking.fetch_string("forum/forums", Auth::NotRequired, HttpMethod::Get, &StoredToken::Absent, 0);
    assert!(matches!(plan, RequestPlan::Send { .. }));
    assert!(matches!(response, FetchResponse::Started));
}

#[test]
fn map_by_identity_and_by_composition() {
    assert!(matches!(FetchResponse::Success(7u8).map(|x| x), FetchResponse::Success(7)));
    assert!(matches!(FetchResponse::<u8>::Started.map(|x| x), FetchResponse::Started));
    assert!(matches!(FetchResponse::<u8>::Error(FetchError::Forbidden).map(|x| x), FetchResponse::Error(FetchError::Forbidden)));
    let f = |x: u8| x as u32 + 1;
    let g = |y: u32| y * 3;
    let twice = FetchResponse::Success(4u8).map(f).map(g);
    let once = FetchResponse::Success(4u8).map(|x| g(f(x)));
    assert!(matches!(twice, FetchResponse::Success(15)));
    assert!(matches!(once, FetchResponse::Success(15)));
    let twice = FetchResponse::<u8>::Error(FetchError::Unauthorized).map(f).map(g);
    assert!(matches!(twice, FetchResponse::Error(FetchError::Unauthorized)));
}

#[test]
fn responses_clone() {
    let r = FetchResponse::Success(vec![1u8, 2]);
    assert!(matches!(r.clone(), FetchResponse::Success(ref v) if v == &vec![1u8, 2]));
    assert!(matches!(FetchResponse::<u8>::Started.clone(), FetchResponse::Started));
}
