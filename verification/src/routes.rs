//! The page's routes: the path segments each route is written as, how a
//! path is read back into a route, and which part of the page a path
//! selects, with the properties it hands that part.

use vstd::prelude::*;
use crate::bucket_model::BucketRoute;
use crate::ids::{uuid_parse, uuid_text, ForumUuid, ThreadUuid, Uuid};

verus! {

/// The pages below `/auth`.
#[derive(Clone, Copy, Debug, PartialEq, Eq, Structural)]
pub enum AuthRoute {
    Login,
    Create,
}

/// The pages below `/forum`.
#[derive(Clone, Copy, Debug, PartialEq, Eq, Structural)]
pub enum ForumRoute {
    ForumList,
    Forum { forum_uuid: ForumUuid },
    Thread { forum_uuid: ForumUuid, thread_uuid: ThreadUuid },
    CreateThread { forum_uuid: ForumUuid },
}

/// Every page of the application.
#[derive(Clone, Copy, Debug, PartialEq, Eq, Structural)]
pub enum Route {
    Forums(ForumRoute),
    Auth(AuthRoute),
    Bucket(BucketRoute),
    PageNotFound,
}

impl Default for ForumRoute {
    fn default() -> (r: Self)
        ensures
            r == ForumRoute::ForumList,
    {
        ForumRoute::ForumList
    }
}

impl Default for Route {
    fn default() -> (r: Self)
        ensures
            r == Route::Forums(ForumRoute::ForumList),
    {
        Route::Forums(ForumRoute::ForumList)
    }
}

/// The texts of a list of segments.
pub open spec fn views(s: Seq<String>) -> Seq<Seq<char>> {
    s.map_values(|x: String| x@)
}

/// The segments of an auth page below `/auth`.
pub open spec fn auth_segments(a: AuthRoute) -> Seq<Seq<char>> {
    match a {
        AuthRoute::Login => seq!["login"@],
        AuthRoute::Create => seq!["create"@],
    }
}

/// The segments of a bucket page below `/bucket`.
pub open spec fn bucket_segments(b: BucketRoute) -> Seq<Seq<char>> {
    match b {
        BucketRoute::BucketList => Seq::<Seq<char>>::empty(),
        BucketRoute::Bucket { bucket_uuid } => seq![bucket_uuid.text()],
        BucketRoute::Create => seq!["create"@],
    }
}

/// The segments of a forum page below `/forum`.
pub open spec fn forum_segments(f: ForumRoute) -> Seq<Seq<char>> {
    match f {
        ForumRoute::ForumList => Seq::<Seq<char>>::empty(),
        ForumRoute::Forum { forum_uuid } => seq![forum_uuid.text()],
        ForumRoute::Thread { forum_uuid, thread_uuid } => seq![forum_uuid.text(), thread_uuid.text()],
        ForumRoute::CreateThread { forum_uuid } => seq![forum_uuid.text(), "create"@],
    }
}

/// The segments of a page's path.
pub open spec fn route_segments(r: Route) -> Seq<Seq<char>> {
    match r {
        Route::Forums(f) => seq!["forum"@] + forum_segments(f),
        Route::Auth(a) => seq!["auth"@] + auth_segments(a),
        Route::Bucket(b) => seq!["bucket"@] + bucket_segments(b),
        Route::PageNotFound => seq!["pagenotfound"@],
    }
}

/// The auth page that the segments from `i` on name, if any.
pub open spec fn auth_from(s: Seq<Seq<char>>, i: int) -> Option<AuthRoute> {
    if 0 <= i < s.len() {
        if s[i] == "login"@ {
            Some(AuthRoute::Login)
        } else if s[i] == "create"@ {
            Some(AuthRoute::Create)
        } else {
            None
        }
    } else {
        None
    }
}

/// The bucket page that the segments from `i` on name: an identifier names
/// a bucket, `create` the creation page, anything else the list; nothing
/// there names no page.
pub open spec fn bucket_from(s: Seq<Seq<char>>, i: int) -> Option<BucketRoute> {
    if 0 <= i < s.len() {
        match uuid_parse(s[i]) {
            Some(v) => Some(BucketRoute::Bucket { bucket_uuid: Uuid { value: v } }),
            None => if s[i] == "create"@ {
                Some(BucketRoute::Create)
            } else {
                Some(BucketRoute::BucketList)
            },
        }
    } else {
        None
    }
}

/// The forum page that the segments from `i` on name: a forum identifier,
/// then nothing (the forum), `create` (a new thread) or a thread
/// identifier; anything else at the first place names the list.
pub open spec fn forum_from(s: Seq<Seq<char>>, i: int) -> Option<ForumRoute> {
    if 0 <= i < s.len() {
        match uuid_parse(s[i]) {
            Some(f) => if i + 1 < s.len() {
                if s[i + 1] == "create"@ {
                    Some(ForumRoute::CreateThread { forum_uuid: Uuid { value: f } })
                } else {
                    match uuid_parse(s[i + 1]) {
                        Some(t) => Some(
                            ForumRoute::Thread {
                                forum_uuid: Uuid { value: f },
                                thread_uuid: Uuid { value: t },
                            },
                        ),
                        None => None,
                    }
                }
            } else {
                Some(ForumRoute::Forum { forum_uuid: Uuid { value: f } })
            },
            None => Some(ForumRoute::ForumList),
        }
    } else {
        Some(ForumRoute::ForumList)
    }
}

/// The page a path names; a path that names none is the not-found page.
pub open spec fn route_from(s: Seq<Seq<char>>) -> Route {
    if s.len() > 0 {
        if s[0] == "forum"@ {
            match forum_from(s, 1) {
                Some(f) => Route::Forums(f),
                None => Route::PageNotFound,
            }
        } else if s[0] == "auth"@ {
            match auth_from(s, 1) {
                Some(a) => Route::Auth(a),
                None => Route::PageNotFound,
            }
        } else if s[0] == "bucket"@ {
            match bucket_from(s, 1) {
                Some(b) => Route::Bucket(b),
                None => Route::PageNotFound,
            }
        } else {
            Route::PageNotFound
        }
    } else {
        Route::PageNotFound
    }
}

/// Whether the segment at `i` exists and is the text `lit`.
pub open spec fn segment_is(s: Seq<Seq<char>>, i: int, lit: Seq<char>) -> bool {
    0 <= i < s.len() && s[i] == lit
}

fn text_is(s: &String, lit: &str) -> (r: bool)
    ensures
        r == (s@ == lit@),
{
    let t = String::from_str(lit);
    s.eq(&t)
}

fn segment_eq(segments: &Vec<String>, i: usize, lit: &str) -> (r: bool)
    ensures
        r == segment_is(views(segments@), i as int, lit@),
{
    if i < segments.len() {
        text_is(&segments[i], lit)
    } else {
        false
    }
}

fn segment_uuid(segments: &Vec<String>, i: usize) -> (r: Option<Uuid>)
    ensures
        i < segments@.len() ==> match uuid_parse(views(segments@)[i as int]) {
            Some(v) => r == Some(Uuid { value: v }),
            None => r is None,
        },
        i >= segments@.len() ==> r is None,
{
    if i < segments.len() {
        Uuid::parse_str(segments[i].as_str())
    } else {
        None
    }
}

fn single(text: String) -> (r: Vec<String>)
    ensures
        views(r@) == seq![text@],
{
    let mut v = Vec::new();
    v.push(text);
    assert(views(v@) =~= seq![text@]);
    v
}

fn pair(a: String, b: String) -> (r: Vec<String>)
    ensures
        views(r@) == seq![a@, b@],
{
    let mut v = Vec::new();
    v.push(a);
    v.push(b);
    assert(views(v@) =~= seq![a@, b@]);
    v
}

impl AuthRoute {
    /// The segments of the page below `/auth`.
    pub fn to_route(&self) -> (r: Vec<String>)
        ensures
            views(r@) == auth_segments(*self),
    {
        match self {
            AuthRoute::Login => single(String::from_str("login")),
            AuthRoute::Create => single(String::from_str("create")),
        }
    }

    /// Reads the page that the segments from `i` on name.
    pub fn from_route(segments: &Vec<String>, i: usize) -> (r: Option<AuthRoute>)
        ensures
            r == auth_from(views(segments@), i as int),
    {
        if segment_eq(segments, i, "login") {
            Some(AuthRoute::Login)
        } else if segment_eq(segments, i, "create") {
            Some(AuthRoute::Create)
        } else {
            None
        }
    }
}

/// The segments of a bucket page below `/bucket`.
pub fn bucket_to_route(b: &BucketRoute) -> (r: Vec<String>)
    ensures
        views(r@) == bucket_segments(*b),
{
    match b {
        BucketRoute::BucketList => {
            let v: Vec<String> = Vec::new();
            assert(views(v@) =~= Seq::<Seq<char>>::empty());
            v
        },
        BucketRoute::Bucket { bucket_uuid } => single(bucket_uuid.to_text()),
        BucketRoute::Create => single(String::from_str("create")),
    }
}

/// Reads the bucket page that the segments from `i` on name.
pub fn bucket_from_route(segments: &Vec<String>, i: usize) -> (r: Option<BucketRoute>)
    ensures
        r == bucket_from(views(segments@), i as int),
{
    if i < segments.len() {
        match segment_uuid(segments, i) {
            Some(bucket_uuid) => Some(BucketRoute::Bucket { bucket_uuid }),
            None => if segment_eq(segments, i, "create") {
                Some(BucketRoute::Create)
            } else {
                Some(BucketRoute::BucketList)
            },
        }
    } else {
        None
    }
}

impl ForumRoute {
    /// The segments of the page below `/forum`.
    pub fn to_route(&self) -> (r: Vec<String>)
        ensures
            views(r@) == forum_segments(*self),
    {
        match self {
            ForumRoute::ForumList => {
                let v: Vec<String> = Vec::new();
                assert(views(v@) =~= Seq::<Seq<char>>::empty());
                v
            },
            ForumRoute::Forum { forum_uuid } => single(forum_uuid.to_text()),
            ForumRoute::Thread { forum_uuid, thread_uuid } => pair(
                forum_uuid.to_text(),
                thread_uuid.to_text(),
            ),
            ForumRoute::CreateThread { forum_uuid } => pair(
                forum_uuid.to_text(),
                String::from_str("create"),
            ),
        }
    }

    /// Reads the page that the segments from `i` on name.
    pub fn from_route(segments: &Vec<String>, i: usize) -> (r: Option<ForumRoute>)
        requires
            i < usize::MAX,
        ensures
            r == forum_from(views(segments@), i as int),
    {
        if i < segments.len() {
            match segment_uuid(segments, i) {
                Some(forum_uuid) => {
                    if i + 1 < segments.len() {
                        if segment_eq(segments, i + 1, "create") {
                            Some(ForumRoute::CreateThread { forum_uuid })
                        } else {
                            match segment_uuid(segments, i + 1) {
                                Some(thread_uuid) => Some(ForumRoute::Thread { forum_uuid, thread_uuid }),
                                None => None,
                            }
                        }
                    } else {
                        Some(ForumRoute::Forum { forum_uuid })
                    }
                },
                None => Some(ForumRoute::ForumList),
            }
        } else {
            Some(ForumRoute::ForumList)
        }
    }
}

fn prefixed(head: &str, tail: Vec<String>) -> (r: Vec<String>)
    ensures
        views(r@) == seq![head@] + views(tail@),
{
    let mut v = single(String::from_str(head));
    let mut rest = tail;
    let ghost t = rest@;
    let ghost h = v@;
    v.append(&mut rest);
    assert(views(v@) =~= seq![head@] + views(t)) by {
        assert(v@ == h + t);
        assert forall|i: int| 0 <= i < v@.len() implies views(v@)[i] == (seq![head@] + views(
            t,
        ))[i] by {
            if i == 0 {
                assert(views(h)[0] == head@);
            }
        }
    }
    v
}

impl Route {
    /// The path of the page, as segments.
    pub fn to_route(&self) -> (r: Vec<String>)
        ensures
            views(r@) == route_segments(*self),
    {
        match self {
            Route::Forums(f) => prefixed("forum", f.to_route()),
            Route::Auth(a) => prefixed("auth", a.to_route()),
            Route::Bucket(b) => prefixed("bucket", bucket_to_route(b)),
            Route::PageNotFound => single(String::from_str("pagenotfound")),
        }
    }

    /// Reads the page a path names.
    pub fn from_route_main(segments: &Vec<String>) -> (r: Route)
        ensures
            r == route_from(views(segments@)),
    {
        if segment_eq(segments, 0, "forum") {
            match ForumRoute::from_route(segments, 1) {
                Some(f) => Route::Forums(f),
                None => Route::PageNotFound,
            }
        } else if segment_eq(segments, 0, "auth") {
            match AuthRoute::from_route(segments, 1) {
                Some(a) => Route::Auth(a),
                None => Route::PageNotFound,
            }
        } else if segment_eq(segments, 0, "bucket") {
            match bucket_from_route(segments, 1) {
                Some(b) => Route::Bucket(b),
                None => Route::PageNotFound,
            }
        } else {
            Route::PageNotFound
        }
    }

    /// Reads the page a path names; every path names one.
    pub fn from_route(segments: &Vec<String>) -> (r: Option<Route>)
        ensures
            r == Some(route_from(views(segments@))),
    {
        Some(Self::from_route_main(segments))
    }
}

/// The identifier's text reads back as the identifier, as `Uuid::to_text`
/// ensures of the text it writes.
pub open spec fn reads_back(u: Uuid) -> bool {
    uuid_parse(uuid_text(u.value)) == Some(u.value)
}

/// Every identifier in the route reads back from its text.
pub open spec fn route_ids_read_back(r: Route) -> bool {
    match r {
        Route::Forums(ForumRoute::Forum { forum_uuid }) => reads_back(forum_uuid),
        Route::Forums(ForumRoute::Thread { forum_uuid, thread_uuid }) => reads_back(forum_uuid)
            && reads_back(thread_uuid),
        Route::Forums(ForumRoute::CreateThread { forum_uuid }) => reads_back(forum_uuid),
        Route::Bucket(BucketRoute::Bucket { bucket_uuid }) => reads_back(bucket_uuid),
        _ => true,
    }
}

/// Writing a page's path and reading it back gives the page again, for
/// every page but the bucket list, whose path `/bucket` has no segment
/// below `/bucket` and reads as the not-found page. It needs the route's
/// identifiers to read back from their text (which `Uuid::to_text` ensures
/// of each text it writes) and `create` not to read as an identifier (which
/// `Uuid::parse_str("create")` answering `None` shows).
pub proof fn lemma_route_round_trip(r: Route)
    requires
        r != Route::Bucket(BucketRoute::BucketList),
        route_ids_read_back(r),
        uuid_parse("create"@) is None,
    ensures
        route_from(route_segments(r)) == r,
{
    reveal_strlit("forum");
    reveal_strlit("auth");
    reveal_strlit("bucket");
    reveal_strlit("create");
    reveal_strlit("login");
    reveal_strlit("pagenotfound");
    assert("auth"@.len() != "forum"@.len());
    assert("bucket"@.len() != "forum"@.len());
    assert("bucket"@.len() != "auth"@.len());
    assert("pagenotfound"@.len() != "forum"@.len());
    assert("pagenotfound"@.len() != "auth"@.len());
    assert("pagenotfound"@.len() != "bucket"@.len());
    assert("login"@ != "create"@) by {
        assert("login"@.len() != "create"@.len());
    }
    let s = route_segments(r);
    match r {
        Route::Forums(f) => {
            assert(s[0] == "forum"@);
            match f {
                ForumRoute::ForumList => {},
                ForumRoute::Forum { forum_uuid } => {
                    assert(s[1] == uuid_text(forum_uuid.value));
                    assert(uuid_parse(uuid_text(forum_uuid.value)) == Some(forum_uuid.value));
                },
                ForumRoute::Thread { forum_uuid, thread_uuid } => {
                    assert(s[1] == uuid_text(forum_uuid.value));
                    assert(s[2] == uuid_text(thread_uuid.value));
                    assert(uuid_parse(uuid_text(forum_uuid.value)) == Some(forum_uuid.value));
                    assert(uuid_parse(uuid_text(thread_uuid.value)) == Some(thread_uuid.value));
                    assert(s[2] != "create"@) by {
                        assert(s[2].len() == 36);
                    }
                },
                ForumRoute::CreateThread { forum_uuid } => {
                    assert(s[1] == uuid_text(forum_uuid.value));
                    assert(s[2] == "create"@);
                    assert(uuid_parse(uuid_text(forum_uuid.value)) == Some(forum_uuid.value));
                },
            }
        },
        Route::Auth(a) => {
            assert(s[0] == "auth"@);
            match a {
                AuthRoute::Login => assert(s[1] == "login"@),
                AuthRoute::Create => assert(s[1] == "create"@),
            }
        },
        Route::Bucket(b) => {
            assert(s[0] == "bucket"@);
            match b {
                BucketRoute::Bucket { bucket_uuid } => {
                    assert(s[1] == uuid_text(bucket_uuid.value));
                    assert(uuid_parse(uuid_text(bucket_uuid.value)) == Some(bucket_uuid.value));
                },
                BucketRoute::Create => {
                    assert(s[1] == "create"@);
                    assert(uuid_parse("create"@) is None);
                },
                BucketRoute::BucketList => {},
            }
        },
        Route::PageNotFound => {
            assert(s[0] == "pagenotfound"@);
        },
    }
}

/// Whether the page's first segment is `auth`.
pub fn auth_will_try_to_route(segments: &Vec<String>) -> (r: bool)
    ensures
        r == segment_is(views(segments@), 0, "auth"@),
{
    segment_eq(segments, 0, "auth")
}

/// The account form is shown when the second segment is `create`.
pub fn create_account_resolve_props(segments: &Vec<String>) -> (r: Option<()>)
    ensures
        r is Some == segment_is(views(segments@), 1, "create"@),
{
    if segment_eq(segments, 1, "create") {
        Some(())
    } else {
        None
    }
}

/// Whether the page's first segment is `bucket`.
pub fn bucket_will_try_to_route(segments: &Vec<String>) -> (r: bool)
    ensures
        r == segment_is(views(segments@), 0, "bucket"@),
{
    segment_eq(segments, 0, "bucket")
}

/// The bucket page: none below `/bucket` is the list, an identifier a
/// bucket, `create` the creation page; anything else selects nothing.
pub fn bucket_resolve_props(segments: &Vec<String>) -> (r: Option<BucketRoute>)
    ensures
        ({
            let s = views(segments@);
            if s.len() > 1 {
                match uuid_parse(s[1]) {
                    Some(v) => r == Some(BucketRoute::Bucket { bucket_uuid: Uuid { value: v } }),
                    None => if s[1] == "create"@ {
                        r == Some(BucketRoute::Create)
                    } else {
                        r is None
                    },
                }
            } else {
                r == Some(BucketRoute::BucketList)
            }
        }),
{
    if 1 < segments.len() {
        match segment_uuid(segments, 1) {
            Some(bucket_uuid) => Some(BucketRoute::Bucket { bucket_uuid }),
            None => if segment_eq(segments, 1, "create") {
                Some(BucketRoute::Create)
            } else {
                None
            },
        }
    } else {
        Some(BucketRoute::BucketList)
    }
}

/// Whether the page's first segment is `forum`.
pub fn forum_will_try_to_route(segments: &Vec<String>) -> (r: bool)
    ensures
        r == segment_is(views(segments@), 0, "forum"@),
{
    segment_eq(segments, 0, "forum")
}

/// The forum area is shown below `/forum`.
pub fn forum_model_resolve_props(segments: &Vec<String>) -> (r: Option<()>)
    ensures
        r is Some == segment_is(views(segments@), 0, "forum"@),
{
    if segment_eq(segments, 0, "forum") {
        Some(())
    } else {
        None
    }
}

/// The forum area takes any path with a segment.
pub fn forum_model_will_try_to_route(segments: &Vec<String>) -> (r: bool)
    ensures
        r == (segments@.len() > 0),
{
    segments.len() > 0
}

/// The forum title: the forum whose identifier is the second segment.
pub fn forum_title_resolve_props(segments: &Vec<String>) -> (r: Option<ForumUuid>)
    ensures
        segments@.len() > 1 ==> match uuid_parse(views(segments@)[1]) {
            Some(v) => r == Some(Uuid { value: v }),
            None => r is None,
        },
        segments@.len() <= 1 ==> r is None,
{
    segment_uuid(segments, 1)
}

/// The title of the forum list is shown when there is no second segment.
pub fn forums_title_resolve_props(segments: &Vec<String>) -> (r: Option<()>)
    ensures
        r is Some == (segments@.len() <= 1),
{
    if segments.len() <= 1 {
        Some(())
    } else {
        None
    }
}

/// The forum list is shown when there is no second segment.
pub fn forums_list_resolve_props(segments: &Vec<String>) -> (r: Option<()>)
    ensures
        r is Some == (segments@.len() <= 1),
{
    if segments.len() <= 1 {
        Some(())
    } else {
        None
    }
}

/// What the thread list is shown with.
#[derive(Clone, Copy, Debug, PartialEq, Eq, Structural)]
pub struct ThreadsListProps {
    pub forum_uuid: ForumUuid,
    pub chosen_thread_uuid: Option<ThreadUuid>,
    pub page_index: Option<usize>,
}

/// The thread list of the forum whose identifier is the second segment,
/// with the thread named by the third (when it is an identifier) chosen,
/// at the first page.
pub fn threads_list_resolve_props(segments: &Vec<String>) -> (r: Option<ThreadsListProps>)
    ensures
        ({
            let s = views(segments@);
            if s.len() > 1 && uuid_parse(s[1]) is Some {
                r matches Some(p) && p.forum_uuid == Uuid { value: uuid_parse(s[1])->0 }
                    && p.page_index == Some(1usize) && if s.len() > 2 && uuid_parse(s[2]) is Some {
                    p.chosen_thread_uuid == Some(Uuid { value: uuid_parse(s[2])->0 })
                } else {
                    p.chosen_thread_uuid is None
                }
            } else {
                r is None
            }
        }),
{
    match segment_uuid(segments, 1) {
        Some(forum_uuid) => {
            let chosen_thread_uuid = segment_uuid(segments, 2);
            Some(ThreadsListProps { forum_uuid, chosen_thread_uuid, page_index: Some(1) })
        },
        None => None,
    }
}

/// A thread is shown when the first segment is `forum` and there is a third.
pub fn thread_will_try_to_route(segments: &Vec<String>) -> (r: bool)
    ensures
        r == (segment_is(views(segments@), 0, "forum"@) && segments@.len() > 2),
{
    segment_eq(segments, 0, "forum") && segments.len() > 2
}

/// The thread whose identifier is the third segment.
pub fn thread_resolve_props(segments: &Vec<String>) -> (r: Option<ThreadUuid>)
    ensures
        segments@.len() > 2 ==> match uuid_parse(views(segments@)[2]) {
            Some(v) => r == Some(Uuid { value: v }),
            None => r is None,
        },
        segments@.len() <= 2 ==> r is None,
{
    segment_uuid(segments, 2)
}

/// The forum form is shown when the second segment is `create`.
pub fn new_forum_resolve_props(segments: &Vec<String>) -> (r: Option<()>)
    ensures
        r is Some == segment_is(views(segments@), 1, "create"@),
{
    if segment_eq(segments, 1, "create") {
        Some(())
    } else {
        None
    }
}

/// The thread form is tried when the first segment is `forum` and there
/// are a second and a third.
pub fn new_thread_will_try_to_route(segments: &Vec<String>) -> (r: bool)
    ensures
        r == (segment_is(views(segments@), 0, "forum"@) && segments@.len() > 2),
{
    segment_eq(segments, 0, "forum") && segments.len() > 2
}

/// The thread form of the forum whose identifier is the second segment,
/// when the third is `create`.
pub fn new_thread_resolve_props(segments: &Vec<String>) -> (r: Option<ForumUuid>)
    ensures
        ({
            let s = views(segments@);
            if s.len() > 1 && uuid_parse(s[1]) is Some && segment_is(s, 2, "create"@) {
                r == Some(Uuid { value: uuid_parse(s[1])->0 })
            } else {
                r is None
            }
        }),
{
    match segment_uuid(segments, 1) {
        Some(forum_uuid) => {
            if segment_eq(segments, 2, "create") {
                Some(forum_uuid)
            } else {
                None
            }
        },
        None => None,
    }
}

} // verus!
