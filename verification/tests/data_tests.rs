use frontend::fetch::{FetchError, FetchResponse, HttpMethod, Auth};
use frontend::ids::Uuid;
use frontend::input::{input_update, InputEvent, InputMsg, InputState};
use frontend::loadable::{Loadable, Uploadable};
use frontend::requests::{AuthRequest, BucketRequest, ForumRequest, LoginRequest, NewBucketRequest};

#[test]
fn loading_equals_anything() {
    let loading: Loadable<u8> = Loadable::Loading;
    assert!(loading == Loadable::Loaded(3));
    assert!(loading == Loadable::Unloaded);
    assert!(Loadable::Loaded(3) != loading);
    assert!(Loadable::<u8>::Unloaded == Loadable::Unloaded);
    assert!(Loadable::<u8>::Failed(Some("a".to_string())) == Loadable::Failed(Some("a".to_string())));
    assert!(Loadable::<u8>::Failed(None) != Loadable::Failed(Some("a".to_string())));
    assert!(Loadable::Loaded(3u8) != Loadable::Loaded(4));
}

#[test]
fn loadables_from_responses() {
    assert!(matches!(Loadable::from_fetch_response(FetchResponse::Success(1u8)), Loadable::Loaded(1)));
    assert!(matches!(Loadable::<u8>::from_fetch_response(FetchResponse::Error(FetchError::Misc)), Loadable::Failed(None)));
    assert!(matches!(Loadable::<u8>::from_fetch_response(FetchResponse::Started), Loadable::Loading));
    assert_eq!(Loadable::Loaded(2u8).as_option(), Some(&2));
    assert_eq!(Loadable::<u8>::Loading.as_option(), None);
    assert!(matches!(Loadable::<u8>::default(), Loadable::Unloaded));
    assert!(matches!(Loadable::Loaded(5u8).clone(), Loadable::Loaded(5)));
}

#[test]
fn uploadable_keeps_value_through_states() {
    let mut u: Uploadable<u32> = Uploadable::NotUploaded(4);
    u.handle_fetch_response(FetchResponse::Started);
    assert!(matches!(u, Uploadable::Uploading(4)));
    u.handle_fetch_response(FetchResponse::Error(FetchError::Forbidden));
    assert!(matches!(u, Uploadable::Failed(4, ref m) if m == "Failed"));
    u.set_uploading();
    assert!(matches!(u, Uploadable::Uploading(4)));
    u.set_failed("nope");
    assert!(matches!(u, Uploadable::Failed(4, ref m) if m == "nope"));
    *u.as_mut() = 9;
    assert!(matches!(u, Uploadable::Failed(9, _)));
    assert_eq!(*u.as_ref(), 9);
    assert_eq!(u.cloned_inner(), 9);
    u.handle_fetch_response(FetchResponse::Success(11));
    assert!(matches!(u, Uploadable::NotUploaded(11)));
    assert_eq!(u.into_inner(), 11);
}

#[test]
fn input_states() {
    let mut s = InputState::Error { text: "a".to_string(), error_text: "bad".to_string() };
    s.set_text("abc".to_string());
    assert_eq!(s.inner_text(), "abc");
    assert_eq!(s.error_text(), Some(&"bad".to_string()));
    let v = InputState::validate("hello".to_string(), |t: String| if t.len() > 3 { Ok(t.to_uppercase()) } else { Err("short".to_string()) });
    assert_eq!(v, InputState::Validated { text: "HELLO".to_string() });
    let e = InputState::validate("hi".to_string(), |t: String| if t.len() > 3 { Ok(t) } else { Err("short".to_string()) });
    assert_eq!(e, InputState::Error { text: "hi".to_string(), error_text: "short".to_string() });
    assert_eq!(InputState::default().inner_text(), "");
    assert_eq!(InputState::default().error_text(), None);
    assert!(InputState::Validated { text: "x".to_string() } != InputState::Unvalidated { text: "x".to_string() });
}

fn at_least_three(t: String) -> Result<String, String> {
    if t.len() >= 3 {
        Ok(t)
    } else {
        Err("too short".to_string())
    }
}

#[test]
fn input_field_reacts() {
    let unchecked = InputState::Unvalidated { text: "a".to_string() };
    let refused = InputState::Error { text: "a".to_string(), error_text: "too short".to_string() };
    let (event, render) = input_update(&unchecked, InputMsg::UpdateText("ab".to_string()), at_least_three);
    assert!(!render);
    match event {
        InputEvent::Changed(s) => assert_eq!(s, InputState::Unvalidated { text: "ab".to_string() }),
        _ => panic!("expected a change"),
    }
    let (event, render) = input_update(&refused, InputMsg::UpdateText("abc".to_string()), at_least_three);
    assert!(!render);
    match event {
        InputEvent::Changed(s) => assert_eq!(s, InputState::Validated { text: "abc".to_string() }),
        _ => panic!("expected a change"),
    }
    let (event, render) = input_update(&unchecked, InputMsg::Validate, at_least_three);
    assert!(!render);
    match event {
        InputEvent::Changed(s) => assert_eq!(s, refused),
        _ => panic!("expected a change"),
    }
    let (event, render) = input_update(&unchecked, InputMsg::EnterPressed, at_least_three);
    assert!(!render);
    assert!(matches!(event, InputEvent::Entered));
    let (event, render) = input_update(&unchecked, InputMsg::NoOp, at_least_three);
    assert!(!render);
    assert!(matches!(event, InputEvent::Nothing));
}

#[test]
fn request_paths_auth_and_methods() {
    let b = Uuid { value: 0x67e55044_10b1_426f_9247_bb680e5fe0c8 };
    assert_eq!(BucketRequest::GetBucket { bucket_uuid: b }.resolve_path(), "buckets/67e55044-10b1-426f-9247-bb680e5fe0c8");
    assert_eq!(
        BucketRequest::SetBucketPublicStatus { bucket_uuid: b, is_public: true }.resolve_path(),
        "buckets/67e55044-10b1-426f-9247-bb680e5fe0c8/publicity?is_public=true"
    );
    assert_eq!(BucketRequest::GetQuestions { bucket_uuid: b }.resolve_auth(), Auth::NotRequired);
    assert_eq!(BucketRequest::GetPublicBuckets.resolve_auth(), Auth::Required);
    let create = BucketRequest::CreateBucket(NewBucketRequest { bucket_name: "n".to_string(), is_public: true });
    assert!(matches!(create.resolve_body_and_method("{}".to_string()), HttpMethod::Post(ref s) if s == "{}"));
    assert!(matches!(BucketRequest::DeleteQuestion { question_uuid: b }.resolve_body_and_method(String::new()), HttpMethod::Delete));
    assert_eq!(ForumRequest::GetThreads { forum_uuid: b, page_index: 3 }.resolve_path(), "thread/get/67e55044-10b1-426f-9247-bb680e5fe0c8/3");
    assert_eq!(ForumRequest::GetForums.resolve_auth(), Auth::NotRequired);
    let login = AuthRequest::Login(LoginRequest { user_name: "u".to_string(), password: "p".to_string() });
    assert_eq!(login.resolve_path(), "auth/login");
    assert_eq!(login.resolve_auth(), Auth::NotRequired);
    assert!(matches!(login.resolve_body_and_method("{}".to_string()), HttpMethod::Post(_)));
}
