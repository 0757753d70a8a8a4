use frontend::ids::Uuid;
use frontend::jwt::{
    extract_payload_from_jwt, get_and_refresh_jwt, has_role, jwt_refresh_needed, Jwt, JwtError, StoredToken,
    TokenError, UserRole, ONE_DAY_SECONDS,
};
use frontend::login::{
    Header, HeaderMsg, LoginAgent, LoginRequest, LoginResponse, StorageChange,
};

fn jwt(roles: Vec<UserRole>, iat: i64, exp: i64) -> Jwt {
    Jwt { sub: Uuid { value: 42 }, user_roles: roles, exp, iat }
}

fn present(payload: Result<Jwt, JwtError>) -> StoredToken {
    StoredToken::Present { token: "tok".to_string(), payload }
}

#[test]
fn payload_is_second_section_decoded() {
    assert_eq!(extract_payload_from_jwt("hdr.eyJpYXQiOjF9.sig"), Ok(b"{\"iat\":1}".to_vec()));
    assert_eq!(extract_payload_from_jwt("hdr.eyJzdWIiOiJhYmMifQ==.sig"), Ok(b"{\"sub\":\"abc\"}".to_vec()));
}

#[test]
fn payload_needs_three_sections() {
    assert_eq!(extract_payload_from_jwt("hdr.eyJpYXQiOjF9"), Err(JwtError::UnexpectedNumberOfSections));
    assert_eq!(extract_payload_from_jwt("a.b"), Err(JwtError::UnexpectedNumberOfSections));
    assert_eq!(extract_payload_from_jwt("hdr.eyJpYXQiOjF9.sig.more"), Err(JwtError::UnexpectedNumberOfSections));
    assert_eq!(extract_payload_from_jwt(".."), Err(JwtError::Base64DecodeFailure));
}

#[test]
fn payload_errors() {
    assert_eq!(extract_payload_from_jwt("no-dots-here"), Err(JwtError::UnexpectedNumberOfSections));
    assert_eq!(extract_payload_from_jwt(""), Err(JwtError::UnexpectedNumberOfSections));
    assert_eq!(extract_payload_from_jwt("hdr.@@@@.sig"), Err(JwtError::Base64DecodeFailure));
    // Valid Base64 of a text that is not JSON.
    assert_eq!(extract_payload_from_jwt("hdr.bm90IGpzb24h.sig"), Err(JwtError::Base64DecodeFailure));
}

#[test]
fn roles_and_identity() {
    assert!(has_role(&vec![UserRole::Admin, UserRole::Moderator], UserRole::Moderator));
    assert!(!has_role(&vec![], UserRole::Admin));
    let t = present(Ok(jwt(vec![UserRole::Unprivileged, UserRole::Publisher], 0, 100)));
    assert!(t.is_logged_in());
    assert!(t.user_is_unprivileged());
    assert!(t.user_is_publisher());
    assert!(!t.user_is_admin());
    assert!(!t.user_is_moderator());
    assert_eq!(t.user_id(), Ok(Uuid { value: 42 }));
    assert_eq!(t.user_auth_expire_date(), Ok(100));
    assert!(!StoredToken::Absent.is_logged_in());
    assert!(!StoredToken::Absent.user_is_admin());
    assert_eq!(StoredToken::Absent.user_id(), Err(TokenError::NoToken));
    let bad = present(Err(JwtError::JsonDecodeFailure));
    assert!(bad.is_logged_in());
    assert!(!bad.user_is_unprivileged());
    assert_eq!(bad.user_id(), Err(TokenError::Malformed(JwtError::JsonDecodeFailure)));
    assert_eq!(bad.user_auth_expire_date(), Err(TokenError::Malformed(JwtError::JsonDecodeFailure)));
}

#[test]
fn token_valid_when_expiry_is_before_now() {
    let t = present(Ok(jwt(vec![], 0, 100)));
    assert_eq!(t.get_token_if_valid(101), Some("tok".to_string()));
    assert_eq!(t.get_token_if_valid(100), None);
    assert_eq!(t.get_token_if_valid(99), None);
    assert_eq!(StoredToken::Absent.get_token_if_valid(0), None);
    assert_eq!(present(Err(JwtError::Base64DecodeFailure)).get_token_if_valid(0), None);
}

#[test]
fn refresh_after_one_day() {
    let iat = 1_000;
    let ok: Result<Jwt, JwtError> = Ok(jwt(vec![], iat, i64::MAX));
    assert!(!jwt_refresh_needed(&ok, iat + ONE_DAY_SECONDS));
    assert!(jwt_refresh_needed(&ok, iat + ONE_DAY_SECONDS + 1));
    let bad: Result<Jwt, JwtError> = Err(JwtError::JsonDecodeFailure);
    assert!(jwt_refresh_needed(&bad, ONE_DAY_SECONDS + 1));
    assert!(!jwt_refresh_needed(&bad, ONE_DAY_SECONDS));
    assert!(jwt_refresh_needed(&Ok(jwt(vec![], i64::MIN, 0)), i64::MAX));
    let t = present(Ok(jwt(vec![], iat, i64::MAX)));
    assert_eq!(get_and_refresh_jwt(&t, iat + 5), Ok(("tok".to_string(), false)));
    assert_eq!(get_and_refresh_jwt(&t, iat + 2 * ONE_DAY_SECONDS), Ok(("tok".to_string(), true)));
    assert_eq!(get_and_refresh_jwt(&StoredToken::Absent, 0), Err(TokenError::NoToken));
    assert_eq!(
        get_and_refresh_jwt(&present(Err(JwtError::Base64DecodeFailure)), 0),
        Err(TokenError::Malformed(JwtError::Base64DecodeFailure))
    );
}

fn listeners(agent: &LoginAgent) -> Vec<u64> {
    let mut v: Vec<u64> = agent.subscribers.iter().copied().collect();
    v.sort();
    v
}

#[test]
fn login_agent_tracks_listeners() {
    let mut agent = LoginAgent::create();
    agent.connected(1);
    agent.connected(2);
    agent.connected(1);
    agent.connected(3);
    assert_eq!(listeners(&agent), vec![1, 2, 3]);
    agent.disconnected(2);
    assert_eq!(listeners(&agent), vec![1, 3]);
    agent.disconnected(9);
    assert_eq!(listeners(&agent), vec![1, 3]);
    // Connecting and then disconnecting a new listener changes nothing.
    agent.connected(4);
    agent.disconnected(4);
    assert_eq!(listeners(&agent), vec![1, 3]);
}

#[test]
fn login_agent_answers() {
    let mut agent = LoginAgent::create();
    for who in [1, 2, 3] {
        agent.connected(who);
    }
    let (change, out) = agent.handle_login("tok".to_string(), Ok(jwt(vec![UserRole::Admin], 5, 6)), 2);
    assert!(matches!(change, StorageChange::Store(ref t) if t == "tok"));
    let mut told: Vec<u64> = out.iter().map(|(w, _)| *w).collect();
    told.sort();
    assert_eq!(told, vec![1, 3]);
    for (_, r) in &out {
        match r {
            LoginResponse::LoggedIn(j) => {
                assert_eq!(j.iat, 5);
                assert_eq!(j.user_roles, vec![UserRole::Admin]);
            }
            LoginResponse::LoggedOut => panic!("expected a login"),
        }
    }
    let (change, out) = agent.handle_login("junk".to_string(), Err(JwtError::UnexpectedNumberOfSections), 2);
    assert!(matches!(change, StorageChange::Keep));
    assert!(out.is_empty());
    let (change, out) = agent.handle_logout(3);
    assert!(matches!(change, StorageChange::Remove));
    let mut told: Vec<u64> = out.iter().map(|(w, _)| *w).collect();
    told.sort();
    assert_eq!(told, vec![1, 2]);
    assert!(out.iter().all(|(_, r)| matches!(r, LoginResponse::LoggedOut)));
    let (who, r) = agent.handle_query(&StoredToken::Absent, 7);
    assert_eq!(who, 7);
    assert!(matches!(r, LoginResponse::LoggedOut));
    let (_, r) = agent.handle_query(&present(Ok(jwt(vec![], 1, 2))), 7);
    assert!(matches!(r, LoginResponse::LoggedIn(ref j) if j.iat == 1 && j.exp == 2));
    let (_, r) = agent.handle_query(&present(Err(JwtError::JsonDecodeFailure)), 7);
    assert!(matches!(r, LoginResponse::LoggedIn(ref j) if j.iat == 0 && j.exp == 0 && j.user_roles.is_empty()));
}

#[test]
fn header_follows_login_state() {
    let (mut header, request) = Header::create();
    assert!(!header.is_logged_in);
    assert!(matches!(request, LoginRequest::Query));
    let (render, req, route) = header.update(HeaderMsg::HandleLoginResponse(LoginResponse::LoggedIn(jwt(vec![], 0, 0))));
    assert!(render && req.is_none() && route.is_none());
    assert!(header.is_logged_in);
    let (render, req, route) = header.update(HeaderMsg::InitiateLogout);
    assert!(render);
    assert!(matches!(req, Some(LoginRequest::Logout)));
    assert_eq!(route, Some("auth/login".to_string()));
    assert!(!header.is_logged_in);
    let (render, _, _) = header.update(HeaderMsg::NoOp);
    assert!(!render);
    header.update(HeaderMsg::HandleLoginResponse(LoginResponse::LoggedOut));
    assert!(!header.is_logged_in);
}
