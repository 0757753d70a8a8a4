use frontend::bucket_model::BucketRoute;
use frontend::ids::Uuid;
use frontend::routes::{
    auth_will_try_to_route, bucket_from_route, bucket_resolve_props, bucket_to_route, bucket_will_try_to_route,
    create_account_resolve_props, forum_model_resolve_props, forum_model_will_try_to_route, forum_title_resolve_props,
    forum_will_try_to_route, forums_list_resolve_props, forums_title_resolve_props, new_forum_resolve_props,
    new_thread_resolve_props, new_thread_will_try_to_route, thread_resolve_props, thread_will_try_to_route,
    threads_list_resolve_props, AuthRoute, ForumRoute, Route,
};

const F: u128 = 0x67e55044_10b1_426f_9247_bb680e5fe0c8;
const T: u128 = 0x936da01f_9abd_4d9d_80c7_02af85c822a8;
const F_TEXT: &str = "67e55044-10b1-426f-9247-bb680e5fe0c8";
const T_TEXT: &str = "936da01f-9abd-4d9d-80c7-02af85c822a8";

fn segs(parts: &[&str]) -> Vec<String> {
    parts.iter().map(|s| s.to_string()).collect()
}

#[test]
fn uuid_text_is_hyphenated_lowercase() {
    let text = Uuid { value: F }.to_text();
    assert_eq!(text, F_TEXT);
    assert_eq!(Uuid { value: 0 }.to_text(), "00000000-0000-0000-0000-000000000000");
}

#[test]
fn uuid_parses_its_forms() {
    assert_eq!(Uuid::parse_str(F_TEXT), Some(Uuid { value: F }));
    assert_eq!(Uuid::parse_str("67e5504410b1426f9247bb680e5fe0c8"), Some(Uuid { value: F }));
    assert_eq!(Uuid::parse_str("create"), None);
    assert_eq!(Uuid::parse_str(""), None);
}

#[test]
fn uuid_round_trip() {
    for v in [0u128, 1, F, T, u128::MAX] {
        let u = Uuid { value: v };
        assert_eq!(Uuid::parse_str(&u.to_text()), Some(u));
    }
}

#[test]
fn routes_are_written_as_segments() {
    assert_eq!(Route::Auth(AuthRoute::Login).to_route(), segs(&["auth", "login"]));
    assert_eq!(Route::Auth(AuthRoute::Create).to_route(), segs(&["auth", "create"]));
    assert_eq!(Route::Forums(ForumRoute::ForumList).to_route(), segs(&["forum"]));
    assert_eq!(
        Route::Forums(ForumRoute::Thread { forum_uuid: Uuid { value: F }, thread_uuid: Uuid { value: T } }).to_route(),
        segs(&["forum", F_TEXT, T_TEXT])
    );
    assert_eq!(
        Route::Forums(ForumRoute::CreateThread { forum_uuid: Uuid { value: F } }).to_route(),
        segs(&["forum", F_TEXT, "create"])
    );
    assert_eq!(Route::Bucket(BucketRoute::Create).to_route(), segs(&["bucket", "create"]));
    assert_eq!(Route::Bucket(BucketRoute::BucketList).to_route(), segs(&["bucket"]));
    assert_eq!(Route::PageNotFound.to_route(), segs(&["pagenotfound"]));
    assert_eq!(bucket_to_route(&BucketRoute::Bucket { bucket_uuid: Uuid { value: T } }), segs(&[T_TEXT]));
}

#[test]
fn routes_read_back() {
    let all = vec![
        Route::Auth(AuthRoute::Login),
        Route::Auth(AuthRoute::Create),
        Route::Forums(ForumRoute::ForumList),
        Route::Forums(ForumRoute::Forum { forum_uuid: Uuid { value: F } }),
        Route::Forums(ForumRoute::Thread { forum_uuid: Uuid { value: F }, thread_uuid: Uuid { value: T } }),
        Route::Forums(ForumRoute::CreateThread { forum_uuid: Uuid { value: F } }),
        Route::Bucket(BucketRoute::Bucket { bucket_uuid: Uuid { value: T } }),
        Route::Bucket(BucketRoute::Create),
        Route::PageNotFound,
    ];
    for r in all {
        assert_eq!(Route::from_route_main(&r.to_route()), r);
        assert_eq!(Route::from_route(&r.to_route()), Some(r));
    }
}

#[test]
fn bucket_list_route_reads_as_not_found() {
    let r = Route::Bucket(BucketRoute::BucketList);
    assert_eq!(Route::from_route_main(&r.to_route()), Route::PageNotFound);
}

#[test]
fn unknown_paths_read_as_not_found_or_lists() {
    assert_eq!(Route::from_route_main(&segs(&[])), Route::PageNotFound);
    assert_eq!(Route::from_route_main(&segs(&["nowhere"])), Route::PageNotFound);
    assert_eq!(Route::from_route_main(&segs(&["auth", "reset"])), Route::PageNotFound);
    assert_eq!(Route::from_route_main(&segs(&["forum", "oops"])), Route::Forums(ForumRoute::ForumList));
    assert_eq!(Route::from_route_main(&segs(&["forum", F_TEXT, "oops"])), Route::PageNotFound);
    assert_eq!(Route::from_route_main(&segs(&["bucket", "oops"])), Route::Bucket(BucketRoute::BucketList));
    assert_eq!(bucket_from_route(&segs(&["bucket"]), 1), None);
    assert_eq!(ForumRoute::from_route(&segs(&["forum"]), 1), Some(ForumRoute::ForumList));
    assert_eq!(AuthRoute::from_route(&segs(&["auth"]), 1), None);
    assert_eq!(Route::default(), Route::Forums(ForumRoute::ForumList));
}

#[test]
fn component_route_selection() {
    let create = segs(&["auth", "create"]);
    assert!(auth_will_try_to_route(&create));
    assert_eq!(create_account_resolve_props(&create), Some(()));
    assert_eq!(create_account_resolve_props(&segs(&["auth", "login"])), None);

    assert!(bucket_will_try_to_route(&segs(&["bucket"])));
    assert!(!bucket_will_try_to_route(&segs(&["forum"])));
    assert_eq!(bucket_resolve_props(&segs(&["bucket"])), Some(BucketRoute::BucketList));
    assert_eq!(bucket_resolve_props(&segs(&["bucket", "create"])), Some(BucketRoute::Create));
    assert_eq!(
        bucket_resolve_props(&segs(&["bucket", F_TEXT])),
        Some(BucketRoute::Bucket { bucket_uuid: Uuid { value: F } })
    );
    assert_eq!(bucket_resolve_props(&segs(&["bucket", "other"])), None);

    let thread = segs(&["forum", F_TEXT, T_TEXT]);
    assert!(forum_will_try_to_route(&thread));
    assert!(forum_model_will_try_to_route(&thread));
    assert!(!forum_model_will_try_to_route(&segs(&[])));
    assert_eq!(forum_model_resolve_props(&thread), Some(()));
    assert_eq!(forum_model_resolve_props(&segs(&["bucket"])), None);
    assert_eq!(forum_title_resolve_props(&thread), Some(Uuid { value: F }));
    assert_eq!(forum_title_resolve_props(&segs(&["forum"])), None);
    assert_eq!(forums_title_resolve_props(&segs(&["forum"])), Some(()));
    assert_eq!(forums_title_resolve_props(&thread), None);
    assert_eq!(forums_list_resolve_props(&segs(&["forum"])), Some(()));
    assert_eq!(forums_list_resolve_props(&thread), None);
    assert!(thread_will_try_to_route(&thread));
    assert!(!thread_will_try_to_route(&segs(&["forum", F_TEXT])));
    assert_eq!(thread_resolve_props(&thread), Some(Uuid { value: T }));
    assert_eq!(thread_resolve_props(&segs(&["forum", F_TEXT, "create"])), None);

    let list = threads_list_resolve_props(&thread).expect("thread list");
    assert_eq!(list.forum_uuid, Uuid { value: F });
    assert_eq!(list.chosen_thread_uuid, Some(Uuid { value: T }));
    assert_eq!(list.page_index, Some(1));
    let list = threads_list_resolve_props(&segs(&["forum", F_TEXT])).expect("thread list");
    assert_eq!(list.chosen_thread_uuid, None);
    assert_eq!(threads_list_resolve_props(&segs(&["forum", "create"])), None);

    assert_eq!(new_forum_resolve_props(&segs(&["forum", "create"])), Some(()));
    assert_eq!(new_forum_resolve_props(&segs(&["forum"])), None);
    let new_thread = segs(&["forum", F_TEXT, "create"]);
    assert!(new_thread_will_try_to_route(&new_thread));
    assert_eq!(new_thread_resolve_props(&new_thread), Some(Uuid { value: F }));
    assert_eq!(new_thread_resolve_props(&thread), None);
}
