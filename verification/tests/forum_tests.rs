use frontend::datatypes::{ForumData, MinimalThreadData, NewThreadData, PostData, SelectableMinimalThreadData, ThreadData, UserData, select_thread};
use frontend::fetch::{FetchError, FetchResponse};
use frontend::forum::{
    ForumCommand, ForumTitle, ForumsList, NewForum, NewForumMsg, NewThread, NewThreadMsg, PostTree, PostTreeMsg, Thread,
    ThreadsList,
};
use frontend::ids::Uuid;
use frontend::input::InputState;
use frontend::loadable::{Loadable, Uploadable};
use frontend::requests::ForumRequest;

fn user(v: u128) -> UserData {
    UserData { user_name: format!("user{}", v), display_name: format!("User {}", v), uuid: Uuid { value: v } }
}

fn post(v: u128, content: &str) -> PostData {
    PostData { uuid: Uuid { value: v }, author: user(1), content: content.to_string(), children: vec![] }
}

fn minimal(v: u128) -> MinimalThreadData {
    MinimalThreadData { uuid: Uuid { value: v }, title: format!("t{}", v), author: user(1), created_date: 0, locked: false }
}

#[test]
fn replying_to_a_post() {
    let mut tree = PostTree::create(post(10, "hello"), Uuid { value: 3 }, None, Some(Uuid { value: 7 }));
    assert_eq!(tree.user_id, Some(Uuid { value: 7 }));
    let (render, request) = tree.update(PostTreeMsg::ToggleReplyArea);
    assert!(render && request.is_none());
    assert!(tree.is_reply_active);
    tree.update(PostTreeMsg::UpdateReplyContent("a reply".to_string()));
    let (render, request) = tree.update(PostTreeMsg::PostReply);
    assert!(render);
    match request {
        Some(ForumRequest::CreatePostResponse(r)) => {
            assert_eq!(r.author_uuid, Uuid { value: 7 });
            assert_eq!(r.thread_uuid, Uuid { value: 3 });
            assert_eq!(r.parent_uuid, Some(Uuid { value: 10 }));
            assert_eq!(r.content, "a reply");
        }
        _ => panic!("expected a reply request"),
    }
    assert!(!tree.is_reply_active);
    tree.update(PostTreeMsg::HandleCreatePostReplyResponse(FetchResponse::Success(post(11, "a reply"))));
    assert_eq!(tree.post.children.len(), 1);
    assert_eq!(tree.post.children[0].uuid, Uuid { value: 11 });
    assert_eq!(tree.reply_content, "");
}

#[test]
fn reply_without_user_sends_nothing() {
    let mut tree = PostTree::create(post(10, "hello"), Uuid { value: 3 }, None, None);
    tree.update(PostTreeMsg::UpdateReplyContent("x".to_string()));
    let (render, request) = tree.update(PostTreeMsg::PostReply);
    assert!(render);
    assert!(request.is_none());
    assert!(!tree.update(PostTreeMsg::NoOp).0);
}

#[test]
fn editing_a_post() {
    let mut tree = PostTree::create(post(10, "hello"), Uuid { value: 3 }, Some(Uuid { value: 1 }), None);
    assert!(tree.update(PostTreeMsg::PostPostEdit).1.is_none());
    tree.update(PostTreeMsg::ToggleEditArea);
    assert_eq!(tree.edit_instance, Some("hello".to_string()));
    tree.update(PostTreeMsg::UpdateEditContent("hello there".to_string()));
    match tree.update(PostTreeMsg::PostPostEdit).1 {
        Some(ForumRequest::UpdatePost(r)) => {
            assert_eq!(r.uuid, Uuid { value: 10 });
            assert_eq!(r.content, "hello there");
        }
        _ => panic!("expected an edit request"),
    }
    tree.update(PostTreeMsg::HandleEditPostResponse(FetchResponse::Success(post(10, "hello there"))));
    assert_eq!(tree.post.content, "hello there");
    assert_eq!(tree.edit_instance, None);
    tree.update(PostTreeMsg::ToggleEditArea);
    tree.update(PostTreeMsg::ToggleEditArea);
    assert_eq!(tree.edit_instance, None);
}

#[test]
fn thread_page_loads_posts() {
    let (mut thread, request) = Thread::create(Uuid { value: 5 }, Some(Uuid { value: 1 }));
    assert!(matches!(request, ForumRequest::GetThread { thread_uuid } if thread_uuid == Uuid { value: 5 }));
    assert!(thread.handle_get_thread_response(FetchResponse::Started));
    assert!(matches!(thread.posts, Loadable::Loading));
    thread.handle_get_thread_response(FetchResponse::Success(post(1, "root")));
    match &thread.posts {
        Loadable::Loaded(p) => {
            assert_eq!(p.post.uuid, Uuid { value: 1 });
            assert_eq!(p.thread_uuid, Uuid { value: 5 });
        }
        _ => panic!("expected loaded posts"),
    }
    // A new thread is requested; the page waits for it before drawing.
    let (render, request) = thread.change(Uuid { value: 6 });
    assert!(!render);
    assert!(matches!(request, Some(ForumRequest::GetThread { thread_uuid }) if thread_uuid == Uuid { value: 6 }));
    thread.handle_get_thread_response(FetchResponse::Error(FetchError::Misc));
    assert!(matches!(thread.posts, Loadable::Failed(_)));
}

#[test]
fn thread_list_marks_chosen_thread() {
    let (mut list, request) = ThreadsList::create(Uuid { value: 2 }, Some(Uuid { value: 21 }), None);
    assert!(matches!(request, ForumRequest::GetThreads { page_index: 1, .. }));
    list.handle_get_threads_response(FetchResponse::Success(vec![minimal(20), minimal(21)]));
    match &list.threads {
        Loadable::Loaded(ts) => {
            assert!(!ts[0].is_selected);
            assert!(ts[1].is_selected);
        }
        _ => panic!("expected loaded threads"),
    }
}

#[test]
fn selecting_threads() {
    let mut threads = vec![
        SelectableMinimalThreadData::new(minimal(1), Uuid { value: 9 }, Some(Uuid { value: 1 })),
        SelectableMinimalThreadData::new(minimal(2), Uuid { value: 9 }, Some(Uuid { value: 1 })),
    ];
    assert!(threads[0].is_selected && !threads[1].is_selected);
    select_thread(&mut threads, Uuid { value: 2 });
    assert!(!threads[0].is_selected && threads[1].is_selected);
}

#[test]
fn forums_and_titles_load() {
    let (mut forums, request) = ForumsList::create();
    assert!(matches!(request, ForumRequest::GetForums));
    forums.handle_get_forums_response(FetchResponse::Success(vec![ForumData {
        uuid: Uuid { value: 4 },
        title: "General".to_string(),
        description: "Talk".to_string(),
    }]));
    let (mut title, request) = ForumTitle::create(Uuid { value: 4 });
    assert!(matches!(request, ForumRequest::GetForum { forum_uuid } if forum_uuid == Uuid { value: 4 }));
    title.handle_get_forum_response(FetchResponse::Success(ForumData {
        uuid: Uuid { value: 4 },
        title: "General".to_string(),
        description: "Talk".to_string(),
    }));
    let (render, request) = title.change(Uuid { value: 4 });
    let _ = (render, request);
}

#[test]
fn new_thread_flow() {
    let mut form = NewThread::create(Uuid { value: 0x67e55044_10b1_426f_9247_bb680e5fe0c8 }, Uuid { value: 3 });
    form.update(NewThreadMsg::UpdateThreadTitle("Title".to_string()));
    form.update(NewThreadMsg::UpdatePostContent("Body".to_string()));
    match form.update(NewThreadMsg::SendCreateNewThreadRequest) {
        (false, Some(ForumCommand::Fetch(ForumRequest::CreateThread(r)))) => {
            assert_eq!(r.title, "Title");
            assert_eq!(r.post_content, "Body");
            assert_eq!(r.author_uuid, Uuid { value: 3 });
        }
        _ => panic!("expected a thread request"),
    }
    let thread = ThreadData {
        uuid: Uuid { value: 0x936da01f_9abd_4d9d_80c7_02af85c822a8 },
        forum_uuid: Uuid { value: 0x67e55044_10b1_426f_9247_bb680e5fe0c8 },
        title: "Title".to_string(),
        author: user(3),
        posts: post(1, "Body"),
        created_date: 0,
        locked: false,
    };
    match form.update(NewThreadMsg::HandleCreateNewThreadResponse(FetchResponse::Success(thread))) {
        (true, Some(ForumCommand::ChangeRoute(path))) => assert_eq!(
            path,
            "forum/67e55044-10b1-426f-9247-bb680e5fe0c8/936da01f-9abd-4d9d-80c7-02af85c822a8"
        ),
        _ => panic!("expected a route change"),
    }
    form.update(NewThreadMsg::HandleCreateNewThreadResponse(FetchResponse::Error(FetchError::Misc)));
    assert!(matches!(form.new_thread, Uploadable::Failed(_, ref m) if m == "Couldn't create new thread."));
    let data = NewThreadData::default();
    let request = data.attach_info(Uuid { value: 1 }, Uuid { value: 2 });
    assert_eq!(request.forum_uuid, Uuid { value: 1 });
    assert_eq!(request.author_uuid, Uuid { value: 2 });
}

#[test]
fn new_forum_flow() {
    let mut form = NewForum::create(true);
    form.update(NewForumMsg::UpdateTitle(InputState::Validated { text: "Games".to_string() }));
    form.update(NewForumMsg::UpdateDescription(InputState::Validated { text: "About games".to_string() }));
    match form.update(NewForumMsg::SendCreateNewForumRequest) {
        (_, Some(ForumCommand::Fetch(ForumRequest::CreateForum(r)))) => {
            assert_eq!(r.title, "Games");
            assert_eq!(r.description, "About games");
        }
        _ => panic!("expected a forum request"),
    }
    assert!(!form.update(NewForumMsg::NoOp).0);
}

#[test]
fn post_links_depend_on_the_user() {
    let author = PostTree::create(post(10, "hello"), Uuid { value: 3 }, None, Some(Uuid { value: 1 }));
    assert!(author.shows_edit_link());
    assert!(author.shows_reply_link());
    let other = PostTree::create(post(10, "hello"), Uuid { value: 3 }, None, Some(Uuid { value: 7 }));
    assert!(!other.shows_edit_link());
    assert!(other.shows_reply_link());
    let nobody = PostTree::create(post(10, "hello"), Uuid { value: 3 }, None, None);
    assert!(!nobody.shows_edit_link());
    assert!(!nobody.shows_reply_link());
}
