//! The forum pages: a post with its replies, a thread, a forum's list of
//! threads, the list of forums, a forum's title, and the forms that create
//! threads and forums.

use vstd::prelude::*;
use crate::datatypes::{
    ForumData, MinimalThreadData, NewThreadData, PostData, SelectableMinimalThreadData,
    ThreadData, select_thread,
};
use crate::fetch::FetchResponse;
use crate::ids::{ForumUuid, ThreadUuid, UserUuid};
use crate::input::InputState;
use crate::loadable::{Loadable, Uploadable};
use crate::requests::{EditPostRequest, ForumRequest, NewForumRequest, NewPostRequest};

verus! {

/// What a forum page asks of the outside world.
#[derive(Debug)]
pub enum ForumCommand {
    /// Send this request.
    Fetch(ForumRequest),
    /// Go to the page at this path.
    ChangeRoute(String),
}

/// What a post is told.
#[derive(Debug)]
pub enum PostTreeMsg {
    ToggleReplyArea,
    UpdateReplyContent(String),
    PostReply,
    HandleCreatePostReplyResponse(FetchResponse<PostData>),
    ToggleEditArea,
    UpdateEditContent(String),
    PostPostEdit,
    HandleEditPostResponse(FetchResponse<PostData>),
    NoOp,
}

/// The state of a post shown with its replies: the reply being written,
/// and the edit in progress, if any. `user_id` is the logged-in user.
#[derive(Debug)]
pub struct PostTree {
    pub post: PostData,
    pub is_reply_active: bool,
    pub reply_content: String,
    pub thread_id: ThreadUuid,
    pub edit_instance: Option<String>,
    pub user_id: Option<UserUuid>,
}

impl PostTree {
    /// A post as it is first shown; the user is the one given, or else the
    /// one the stored token names.
    pub fn create(
        post: PostData,
        thread_uuid: ThreadUuid,
        user_uuid: Option<UserUuid>,
        stored_user: Option<UserUuid>,
    ) -> (r: PostTree)
        ensures
            r.post == post,
            r.thread_id == thread_uuid,
            r.user_id == (if user_uuid is Some {
                user_uuid
            } else {
                stored_user
            }),
            !r.is_reply_active,
            r.reply_content@ == Seq::<char>::empty(),
            (r.edit_instance is None),
    {
        let user_id = if let Some(uuid) = user_uuid {
            Some(uuid)
        } else {
            stored_user
        };
        PostTree {
            post,
            is_reply_active: false,
            reply_content: String::new(),
            thread_id: thread_uuid,
            edit_instance: None,
            user_id,
        }
    }

    /// Whether the post shows the link that opens its edit area: only to
    /// the logged-in user who wrote it.
    pub fn shows_edit_link(&self) -> (r: bool)
        ensures
            r == (self.user_id == Some(self.post.author.uuid)),
    {
        match self.user_id {
            Some(user) => user.value == self.post.author.uuid.value,
            None => false,
        }
    }

    /// Whether the post shows the link that opens its reply area: only to a
    /// logged-in user.
    pub fn shows_reply_link(&self) -> (r: bool)
        ensures
            r == (self.user_id is Some),
    {
        self.user_id.is_some()
    }

    /// How handling `msg` takes the post from `pre` to `post`, with `r`
    /// saying whether to render again and which request to send.
    pub open spec fn updated(
        pre: PostTree,
        msg: PostTreeMsg,
        post: PostTree,
        r: (bool, Option<ForumRequest>),
    ) -> bool {
        &&& r.0 == !(msg is NoOp)
        &&& post.thread_id == pre.thread_id
        &&& post.user_id == pre.user_id
        &&& match msg {
            PostTreeMsg::ToggleReplyArea => {
                &&& r.1 is None
                &&& post == PostTree { is_reply_active: !pre.is_reply_active, ..pre }
            },
            PostTreeMsg::UpdateReplyContent(content) => {
                &&& r.1 is None
                &&& post == PostTree { reply_content: content, ..pre }
            },
            PostTreeMsg::PostReply => match pre.user_id {
                Some(user) => {
                    &&& r.1 == Some(
                        ForumRequest::CreatePostResponse(
                            NewPostRequest {
                                author_uuid: user,
                                thread_uuid: pre.thread_id,
                                parent_uuid: Some(pre.post.uuid),
                                content: pre.reply_content,
                            },
                        ),
                    )
                    &&& post == PostTree { is_reply_active: false, ..pre }
                },
                None => r.1 is None && post == pre,
            },
            PostTreeMsg::HandleCreatePostReplyResponse(response) => {
                &&& r.1 is None
                &&& match response {
                    FetchResponse::Success(reply) => {
                        &&& post.post.uuid == pre.post.uuid
                        &&& post.post.author == pre.post.author
                        &&& post.post.content == pre.post.content
                        &&& post.post.children@ == pre.post.children@.push(reply)
                        &&& post.reply_content@ == Seq::<char>::empty()
                        &&& post.is_reply_active == pre.is_reply_active
                        &&& post.edit_instance == pre.edit_instance
                    },
                    _ => post == pre,
                }
            },
            PostTreeMsg::ToggleEditArea => {
                &&& r.1 is None
                &&& post == PostTree {
                    edit_instance: if pre.edit_instance is Some {
                        None
                    } else {
                        Some(pre.post.content)
                    },
                    ..pre
                }
            },
            PostTreeMsg::UpdateEditContent(text) => {
                &&& r.1 is None
                &&& post == PostTree {
                    edit_instance: if pre.edit_instance is Some {
                        Some(text)
                    } else {
                        None
                    },
                    ..pre
                }
            },
            PostTreeMsg::PostPostEdit => {
                &&& post == pre
                &&& r.1 == match pre.edit_instance {
                    Some(text) => Some(
                        ForumRequest::UpdatePost(
                            EditPostRequest {
                                uuid: pre.post.uuid,
                                thread_uuid: pre.thread_id,
                                content: text,
                            },
                        ),
                    ),
                    None => None,
                }
            },
            PostTreeMsg::HandleEditPostResponse(response) => {
                &&& r.1 is None
                &&& match response {
                    FetchResponse::Success(edited) => {
                        &&& post.post.uuid == edited.uuid
                        &&& post.post.author == edited.author
                        &&& post.post.content == edited.content
                        &&& post.post.children == pre.post.children
                        &&& post.edit_instance is None
                        &&& post.is_reply_active == pre.is_reply_active
                        &&& post.reply_content == pre.reply_content
                    },
                    _ => post == pre,
                }
            },
            PostTreeMsg::NoOp => r.1 is None && post == pre,
        }
    }

    /// Handles `msg`.
    pub fn update(&mut self, msg: PostTreeMsg) -> (r: (bool, Option<ForumRequest>))
        ensures
            Self::updated(*old(self), msg, *final(self), r),
    {
        match msg {
            PostTreeMsg::ToggleReplyArea => {
                self.is_reply_active = !self.is_reply_active;
                (true, None)
            },
            PostTreeMsg::UpdateReplyContent(new_content) => {
                self.reply_content = new_content;
                (true, None)
            },
            PostTreeMsg::PostReply => {
                if let Some(user_id) = self.user_id {
                    self.is_reply_active = false;
                    let post_reply = NewPostRequest {
                        author_uuid: user_id,
                        thread_uuid: self.thread_id,
                        parent_uuid: Some(self.post.uuid),
                        content: self.reply_content.clone(),
                    };
                    (true, Some(ForumRequest::CreatePostResponse(post_reply)))
                } else {
                    (true, None)
                }
            },
            PostTreeMsg::HandleCreatePostReplyResponse(response) => {
                if let FetchResponse::Success(post_data) = response {
                    self.post.children.push(post_data);
                    self.reply_content = String::new();
                }
                (true, None)
            },
            PostTreeMsg::ToggleEditArea => {
                if self.edit_instance.is_some() {
                    self.edit_instance = None;
                } else {
                    self.edit_instance = Some(self.post.content.clone());
                }
                (true, None)
            },
            PostTreeMsg::UpdateEditContent(update_string) => {
                if self.edit_instance.is_some() {
                    self.edit_instance = Some(update_string);
                }
                (true, None)
            },
            PostTreeMsg::PostPostEdit => {
                match &self.edit_instance {
                    Some(edit_text) => {
                        let post_edit = EditPostRequest {
                            uuid: self.post.uuid,
                            thread_uuid: self.thread_id,
                            content: edit_text.clone(),
                        };
                        (true, Some(ForumRequest::UpdatePost(post_edit)))
                    },
                    None => (true, None),
                }
            },
            PostTreeMsg::HandleEditPostResponse(response) => {
                if let FetchResponse::Success(edited_post) = response {
                    self.post.merge_childless(edited_post);
                    self.edit_instance = None;
                }
                (true, None)
            },
            PostTreeMsg::NoOp => (false, None),
        }
    }
}

/// What a post needs to be shown: the post, its thread, and the user.
#[derive(Debug)]
pub struct PostTreeProps {
    pub post: PostData,
    pub thread_uuid: ThreadUuid,
    pub user_uuid: Option<UserUuid>,
}

/// The state of a thread's page.
#[derive(Debug)]
pub struct Thread {
    pub posts: Loadable<PostTreeProps>,
    pub thread_uuid: ThreadUuid,
    pub user_uuid: Option<UserUuid>,
}

impl Thread {
    /// The page of `thread_uuid` when it opens, and the request for its posts.
    pub fn create(thread_uuid: ThreadUuid, user_uuid: Option<UserUuid>) -> (r: (
        Thread,
        ForumRequest,
    ))
        ensures
            (r.0.posts is Unloaded),
            r.0.thread_uuid == thread_uuid,
            r.0.user_uuid == user_uuid,
            r.1 == (ForumRequest::GetThread { thread_uuid }),
    {
        (Thread { posts: Loadable::Unloaded, thread_uuid, user_uuid }, ForumRequest::GetThread {
            thread_uuid,
        })
    }

    /// Stores the answer to the request for the thread's posts.
    pub fn handle_get_thread_response(&mut self, response: FetchResponse<PostData>) -> (r: bool)
        ensures
            r,
            final(self).thread_uuid == old(self).thread_uuid,
            final(self).user_uuid == old(self).user_uuid,
            final(self).posts == match response {
                FetchResponse::Success(p) => Loadable::Loaded(
                    PostTreeProps {
                        post: p,
                        thread_uuid: old(self).thread_uuid,
                        user_uuid: old(self).user_uuid,
                    },
                ),
                FetchResponse::Error(_) => Loadable::Failed(None),
                FetchResponse::Started => Loadable::Loading,
            },
    {
        self.posts = match response {
            FetchResponse::Success(post_data) => Loadable::Loaded(
                PostTreeProps {
                    post: post_data,
                    thread_uuid: self.thread_uuid,
                    user_uuid: self.user_uuid,
                },
            ),
            FetchResponse::Error(_) => Loadable::Failed(None),
            FetchResponse::Started => Loadable::Loading,
        };
        true
    }

    /// Another thread is shown: its posts are requested; the page is not
    /// rendered again until they come.
    pub fn change(&mut self, thread_uuid: ThreadUuid) -> (r: (bool, Option<ForumRequest>))
        ensures
            !r.0,
            final(self).thread_uuid == thread_uuid,
            final(self).posts == old(self).posts,
            final(self).user_uuid == old(self).user_uuid,
            r.1 == if old(self).thread_uuid != thread_uuid {
                Some(ForumRequest::GetThread { thread_uuid })
            } else {
                None
            },
    {
        if self.thread_uuid.value != thread_uuid.value {
            self.thread_uuid = thread_uuid;
            (false, Some(ForumRequest::GetThread { thread_uuid }))
        } else {
            (false, None)
        }
    }
}

/// The state of a forum's list of threads.
#[derive(Debug)]
pub struct ThreadsList {
    pub threads: Loadable<Vec<SelectableMinimalThreadData>>,
    pub forum_uuid: ForumUuid,
    pub chosen_thread_uuid: Option<ThreadUuid>,
}

/// `t` as an entry of the list of `forum_uuid`, selected when it is `chosen`.
pub open spec fn list_entry(
    t: MinimalThreadData,
    forum_uuid: ForumUuid,
    chosen: Option<ThreadUuid>,
) -> SelectableMinimalThreadData {
    SelectableMinimalThreadData {
        minimal_thread_data: t,
        forum_uuid,
        is_selected: chosen == Some(t.uuid),
    }
}

fn list_entries(
    threads: Vec<MinimalThreadData>,
    forum_uuid: ForumUuid,
    chosen: Option<ThreadUuid>,
) -> (r: Vec<SelectableMinimalThreadData>)
    ensures
        r@.len() == threads@.len(),
        forall|i: int|
            0 <= i < threads@.len() ==> #[trigger] r@[i] == list_entry(
                threads@[i],
                forum_uuid,
                chosen,
            ),
{
    let ghost orig = threads@;
    let total = threads.len();
    let mut rest = threads;
    let mut out: Vec<SelectableMinimalThreadData> = Vec::new();
    let mut k: usize = 0;
    while rest.len() > 0
        invariant
            orig.len() == total,
            k <= total,
            rest@ == orig.skip(k as int),
            out@.len() == k,
            forall|i: int|
                0 <= i < k ==> #[trigger] out@[i] == list_entry(orig[i], forum_uuid, chosen),
        decreases rest@.len(),
    {
        let t = rest.remove(0);
        out.push(SelectableMinimalThreadData::new(t, forum_uuid, chosen));
        k = k + 1;
        assert(rest@ =~= orig.skip(k as int));
    }
    out
}

impl ThreadsList {
    /// The list of `forum_uuid` when it opens, and the request for a page
    /// of its threads (the first when none is given).
    pub fn create(
        forum_uuid: ForumUuid,
        chosen_thread_uuid: Option<ThreadUuid>,
        page_index: Option<usize>,
    ) -> (r: (ThreadsList, ForumRequest))
        ensures
            (r.0.threads is Unloaded),
            r.0.forum_uuid == forum_uuid,
            r.0.chosen_thread_uuid == chosen_thread_uuid,
            r.1 == (ForumRequest::GetThreads {
                forum_uuid,
                page_index: match page_index {
                    Some(p) => p,
                    None => 1,
                },
            }),
    {
        let page_index: usize = match page_index {
            Some(p) => p,
            None => 1,
        };
        (
            ThreadsList { threads: Loadable::Unloaded, forum_uuid, chosen_thread_uuid },
            ForumRequest::GetThreads { forum_uuid, page_index },
        )
    }

    /// Stores the answer to the request for the threads, marking the chosen one.
    pub fn handle_get_threads_response(&mut self, response: FetchResponse<Vec<MinimalThreadData>>) -> (r: bool)
        ensures
            r,
            final(self).forum_uuid == old(self).forum_uuid,
            final(self).chosen_thread_uuid == old(self).chosen_thread_uuid,
            match response {
                FetchResponse::Success(v) => final(self).threads matches Loadable::Loaded(w)
                    && w@.len() == v@.len() && forall|i: int|
                    0 <= i < v@.len() ==> #[trigger] w@[i] == list_entry(
                        v@[i],
                        old(self).forum_uuid,
                        old(self).chosen_thread_uuid,
                    ),
                FetchResponse::Error(_) => final(self).threads == Loadable::<
                    Vec<SelectableMinimalThreadData>,
                >::Failed(None),
                FetchResponse::Started => (final(self).threads is Loading),
            },
    {
        self.threads = match response {
            FetchResponse::Success(v) => Loadable::Loaded(
                list_entries(v, self.forum_uuid, self.chosen_thread_uuid),
            ),
            FetchResponse::Error(_) => Loadable::Failed(None),
            FetchResponse::Started => Loadable::Loading,
        };
        true
    }

    /// The route changed: the forum and chosen thread are taken over, and
    /// when a thread is chosen the loaded list marks exactly that one.
    pub fn change(&mut self, forum_uuid: ForumUuid, chosen_thread_uuid: Option<ThreadUuid>) -> (r:
        bool)
        ensures
            r,
            final(self).forum_uuid == forum_uuid,
            final(self).chosen_thread_uuid == chosen_thread_uuid,
            match (chosen_thread_uuid, old(self).threads) {
                (Some(t), Loadable::Loaded(v)) => final(self).threads matches Loadable::Loaded(w)
                    && w@.len() == v@.len() && forall|i: int|
                    0 <= i < v@.len() ==> (#[trigger] w@[i]).minimal_thread_data
                        == v@[i].minimal_thread_data && w@[i].forum_uuid == v@[i].forum_uuid
                        && w@[i].is_selected == (v@[i].minimal_thread_data.uuid == t),
                _ => final(self).threads == old(self).threads,
            },
    {
        self.forum_uuid = forum_uuid;
        self.chosen_thread_uuid = chosen_thread_uuid;
        if let Some(thread_uuid) = chosen_thread_uuid {
            if let Loadable::Loaded(threads) = &mut self.threads {
                select_thread(threads, thread_uuid);
            }
        }
        true
    }
}

/// The state of the list of forums.
#[derive(Debug)]
pub struct ForumsList {
    pub forums: Loadable<Vec<ForumData>>,
}

impl ForumsList {
    /// The list when it opens, and the request for the forums.
    pub fn create() -> (r: (ForumsList, ForumRequest))
        ensures
            (r.0.forums is Unloaded),
            r.1 == ForumRequest::GetForums,
    {
        (ForumsList { forums: Loadable::Unloaded }, ForumRequest::GetForums)
    }

    /// Stores the answer to the request for the forums.
    pub fn handle_get_forums_response(&mut self, response: FetchResponse<Vec<ForumData>>) -> (r:
        bool)
        ensures
            r,
            final(self).forums == match response {
                FetchResponse::Success(v) => Loadable::Loaded(v),
                FetchResponse::Error(_) => Loadable::Failed(None),
                FetchResponse::Started => Loadable::Loading,
            },
    {
        self.forums = Loadable::from_fetch_response(response);
        true
    }
}

/// The state of a forum's title bar.
#[derive(Debug)]
pub struct ForumTitle {
    pub chosen_forum: Loadable<ForumData>,
}

impl ForumTitle {
    /// The title bar of `forum_uuid` when it opens, and the request for the forum.
    pub fn create(forum_uuid: ForumUuid) -> (r: (ForumTitle, ForumRequest))
        ensures
            (r.0.chosen_forum is Unloaded),
            r.1 == (ForumRequest::GetForum { forum_uuid }),
    {
        (ForumTitle { chosen_forum: Loadable::Unloaded }, ForumRequest::GetForum { forum_uuid })
    }

    /// Stores the answer to the request for the forum.
    pub fn handle_get_forum_response(&mut self, response: FetchResponse<ForumData>) -> (r: bool)
        ensures
            r,
            final(self).chosen_forum == match response {
                FetchResponse::Success(f) => Loadable::Loaded(f),
                FetchResponse::Error(_) => Loadable::Failed(None),
                FetchResponse::Started => Loadable::Loading,
            },
    {
        self.chosen_forum = Loadable::from_fetch_response(response);
        true
    }

    /// Another forum is shown: it is requested unless it is the one loaded.
    pub fn change(&self, forum_uuid: ForumUuid) -> (r: (bool, Option<ForumRequest>))
        ensures
            !r.0,
            r.1 == match self.chosen_forum {
                Loadable::Loaded(f) => if f.uuid != forum_uuid {
                    Some(ForumRequest::GetForum { forum_uuid })
                } else {
                    None
                },
                _ => Some(ForumRequest::GetForum { forum_uuid }),
            },
    {
        let needs_refresh = match &self.chosen_forum {
            Loadable::Loaded(forum) => forum.uuid.value != forum_uuid.value,
            _ => true,
        };
        if needs_refresh {
            (false, Some(ForumRequest::GetForum { forum_uuid }))
        } else {
            (false, None)
        }
    }
}

/// What the form that creates a thread is told.
#[derive(Debug)]
pub enum NewThreadMsg {
    SendCreateNewThreadRequest,
    HandleCreateNewThreadResponse(FetchResponse<ThreadData>),
    UpdatePostContent(String),
    UpdateThreadTitle(String),
    NoOp,
}

/// The state of the form that creates a thread in `forum_uuid`.
#[derive(Debug)]
pub struct NewThread {
    pub new_thread: Uploadable<NewThreadData>,
    pub user_uuid: UserUuid,
    pub forum_uuid: ForumUuid,
}

/// The path of a thread's page.
pub open spec fn thread_path(forum_uuid: ForumUuid, thread_uuid: ThreadUuid) -> Seq<char> {
    "forum/"@ + forum_uuid.text() + "/"@ + thread_uuid.text()
}

impl NewThread {
    /// An empty form for a thread in `forum_uuid` by `user_uuid`.
    pub fn create(forum_uuid: ForumUuid, user_uuid: UserUuid) -> (r: NewThread)
        ensures
            r.forum_uuid == forum_uuid,
            r.user_uuid == user_uuid,
            r.new_thread matches Uploadable::NotUploaded(t) && t.title@ == Seq::<char>::empty()
                && t.post_content@ == Seq::<char>::empty(),
    {
        NewThread {
            new_thread: Uploadable::NotUploaded(NewThreadData::default()),
            user_uuid,
            forum_uuid,
        }
    }

    /// How handling `msg` takes the form from `pre` to `post`, with `r`
    /// saying whether to render again and what to ask of the outside world.
    pub open spec fn updated(
        pre: NewThread,
        msg: NewThreadMsg,
        post: NewThread,
        r: (bool, Option<ForumCommand>),
    ) -> bool {
        &&& post.user_uuid == pre.user_uuid
        &&& post.forum_uuid == pre.forum_uuid
        &&& match msg {
            NewThreadMsg::SendCreateNewThreadRequest => {
                &&& !r.0
                &&& post == pre
                &&& r.1 matches Some(ForumCommand::Fetch(ForumRequest::CreateThread(req)))
                    && req.forum_uuid == pre.forum_uuid && req.author_uuid == pre.user_uuid
                    && req.title == pre.new_thread.inner().title && req.post_content
                    == pre.new_thread.inner().post_content
            },
            NewThreadMsg::HandleCreateNewThreadResponse(response) => {
                &&& r.0
                &&& match response {
                    FetchResponse::Success(thread) => {
                        &&& post == pre
                        &&& r.1 matches Some(ForumCommand::ChangeRoute(p)) && p@ == thread_path(
                            thread.forum_uuid,
                            thread.uuid,
                        )
                    },
                    FetchResponse::Error(_) => {
                        &&& r.1 is None
                        &&& post.new_thread matches Uploadable::Failed(t, m) && t
                            == pre.new_thread.inner() && m@ == "Couldn't create new thread."@
                    },
                    FetchResponse::Started => {
                        &&& r.1 is None
                        &&& post.new_thread == Uploadable::Uploading(pre.new_thread.inner())
                    },
                }
            },
            NewThreadMsg::UpdateThreadTitle(title) => {
                &&& r.0
                &&& r.1 is None
                &&& post.new_thread == match pre.new_thread {
                    Uploadable::NotUploaded(t) => Uploadable::NotUploaded(
                        NewThreadData { title, ..t },
                    ),
                    Uploadable::Uploading(t) => Uploadable::Uploading(
                        NewThreadData { title, ..t },
                    ),
                    Uploadable::Failed(t, m) => Uploadable::Failed(
                        NewThreadData { title, ..t },
                        m,
                    ),
                }
            },
            NewThreadMsg::UpdatePostContent(post_content) => {
                &&& r.0
                &&& r.1 is None
                &&& post.new_thread == match pre.new_thread {
                    Uploadable::NotUploaded(t) => Uploadable::NotUploaded(
                        NewThreadData { post_content, ..t },
                    ),
                    Uploadable::Uploading(t) => Uploadable::Uploading(
                        NewThreadData { post_content, ..t },
                    ),
                    Uploadable::Failed(t, m) => Uploadable::Failed(
                        NewThreadData { post_content, ..t },
                        m,
                    ),
                }
            },
            NewThreadMsg::NoOp => !r.0 && r.1 is None && post == pre,
        }
    }

    /// Handles `msg`.
    pub fn update(&mut self, msg: NewThreadMsg) -> (r: (bool, Option<ForumCommand>))
        ensures
            Self::updated(*old(self), msg, *final(self), r),
    {
        match msg {
            NewThreadMsg::SendCreateNewThreadRequest => {
                let request = self.new_thread.as_ref().attach_info(self.forum_uuid, self.user_uuid);
                (false, Some(ForumCommand::Fetch(ForumRequest::CreateThread(request))))
            },
            NewThreadMsg::HandleCreateNewThreadResponse(response) => {
                match response {
                    FetchResponse::Success(thread) => {
                        let mut path = String::from_str("forum/");
                        let f = thread.forum_uuid.to_text();
                        path.append(f.as_str());
                        path.append("/");
                        let t = thread.uuid.to_text();
                        path.append(t.as_str());
                        (true, Some(ForumCommand::ChangeRoute(path)))
                    },
                    FetchResponse::Error(_) => {
                        self.new_thread.set_failed("Couldn't create new thread.");
                        (true, None)
                    },
                    FetchResponse::Started => {
                        self.new_thread.set_uploading();
                        (true, None)
                    },
                }
            },
            NewThreadMsg::UpdateThreadTitle(title) => {
                self.new_thread.as_mut().title = title;
                (true, None)
            },
            NewThreadMsg::UpdatePostContent(text) => {
                self.new_thread.as_mut().post_content = text;
                (true, None)
            },
            NewThreadMsg::NoOp => (false, None),
        }
    }
}

/// The fields of the form that creates a forum.
#[derive(Debug)]
pub struct NewForumData {
    pub title: InputState,
    pub description: InputState,
}

impl Default for NewForumData {
    fn default() -> (r: Self)
        ensures
            r.title matches InputState::Unvalidated { text } && text@ == Seq::<char>::empty(),
            r.description matches InputState::Unvalidated { text } && text@ == Seq::<
                char,
            >::empty(),
    {
        NewForumData { title: InputState::default(), description: InputState::default() }
    }
}

/// What the form that creates a forum is told.
#[derive(Debug)]
pub enum NewForumMsg {
    SendCreateNewForumRequest,
    HandleCreateNewForumResponse(FetchResponse<ForumData>),
    UpdateTitle(InputState),
    UpdateDescription(InputState),
    NoOp,
}

/// The state of the form that creates a forum.
#[derive(Debug)]
pub struct NewForum {
    pub new_forum: Uploadable<NewForumData>,
    pub is_user_admin: bool,
}

impl NewForum {
    /// An empty form; `is_user_admin` says whether the stored token names an admin.
    pub fn create(is_user_admin: bool) -> (r: NewForum)
        ensures
            r.is_user_admin == is_user_admin,
            r.new_forum matches Uploadable::NotUploaded(f) && f.title.text()@ == Seq::<
                char,
            >::empty() && f.description.text()@ == Seq::<char>::empty(),
    {
        NewForum { new_forum: Uploadable::NotUploaded(NewForumData::default()), is_user_admin }
    }

    /// How handling `msg` takes the form from `pre` to `post`, with `r`
    /// saying whether to render again and what to ask of the outside world.
    pub open spec fn updated(
        pre: NewForum,
        msg: NewForumMsg,
        post: NewForum,
        r: (bool, Option<ForumCommand>),
    ) -> bool {
        &&& post.is_user_admin == pre.is_user_admin
        &&& match msg {
            NewForumMsg::SendCreateNewForumRequest => {
                &&& !r.0
                &&& post == pre
                &&& r.1 == Some(
                    ForumCommand::Fetch(
                        ForumRequest::CreateForum(
                            NewForumRequest {
                                title: pre.new_forum.inner().title.text(),
                                description: pre.new_forum.inner().description.text(),
                            },
                        ),
                    ),
                )
            },
            NewForumMsg::HandleCreateNewForumResponse(response) => {
                &&& r.0
                &&& match response {
                    FetchResponse::Success(forum) => {
                        &&& post == pre
                        &&& r.1 matches Some(ForumCommand::ChangeRoute(p)) && p@ == "forum/"@
                            + forum.uuid.text()
                    },
                    FetchResponse::Error(_) => {
                        &&& r.1 is None
                        &&& post.new_forum matches Uploadable::Failed(f, m) && f
                            == pre.new_forum.inner() && m@ == "Couldn't create new forum."@
                    },
                    FetchResponse::Started => {
                        &&& r.1 is None
                        &&& post.new_forum == Uploadable::Uploading(pre.new_forum.inner())
                    },
                }
            },
            NewForumMsg::UpdateTitle(title) => {
                &&& r.0
                &&& r.1 is None
                &&& post.new_forum == match pre.new_forum {
                    Uploadable::NotUploaded(f) => Uploadable::NotUploaded(
                        NewForumData { title, ..f },
                    ),
                    Uploadable::Uploading(f) => Uploadable::Uploading(NewForumData { title, ..f }),
                    Uploadable::Failed(f, m) => Uploadable::Failed(NewForumData { title, ..f }, m),
                }
            },
            NewForumMsg::UpdateDescription(description) => {
                &&& r.0
                &&& r.1 is None
                &&& post.new_forum == match pre.new_forum {
                    Uploadable::NotUploaded(f) => Uploadable::NotUploaded(
                        NewForumData { description, ..f },
                    ),
                    Uploadable::Uploading(f) => Uploadable::Uploading(
                        NewForumData { description, ..f },
                    ),
                    Uploadable::Failed(f, m) => Uploadable::Failed(
                        NewForumData { description, ..f },
                        m,
                    ),
                }
            },
            NewForumMsg::NoOp => !r.0 && r.1 is None && post == pre,
        }
    }

    /// Handles `msg`.
    pub fn update(&mut self, msg: NewForumMsg) -> (r: (bool, Option<ForumCommand>))
        ensures
            Self::updated(*old(self), msg, *final(self), r),
    {
        match msg {
            NewForumMsg::SendCreateNewForumRequest => {
                let request = NewForumRequest {
                    title: self.new_forum.as_ref().title.inner_text(),
                    description: self.new_forum.as_ref().description.inner_text(),
                };
                (false, Some(ForumCommand::Fetch(ForumRequest::CreateForum(request))))
            },
            NewForumMsg::HandleCreateNewForumResponse(response) => {
                match response {
                    FetchResponse::Success(forum) => {
                        let mut path = String::from_str("forum/");
                        let f = forum.uuid.to_text();
                        path.append(f.as_str());
                        (true, Some(ForumCommand::ChangeRoute(path)))
                    },
                    FetchResponse::Error(_) => {
                        self.new_forum.set_failed("Couldn't create new forum.");
                        (true, None)
                    },
                    FetchResponse::Started => {
                        self.new_forum.set_uploading();
                        (true, None)
                    },
                }
            },
            NewForumMsg::UpdateTitle(title) => {
                self.new_forum.as_mut().title = title;
                (true, None)
            },
            NewForumMsg::UpdateDescription(text) => {
                self.new_forum.as_mut().description = text;
                (true, None)
            },
            NewForumMsg::NoOp => (false, None),
        }
    }
}

/// A post's replies are never lost: a successful answer to a reply adds
/// exactly that reply after the others, and every other message, an
/// answer to an edit included, leaves the replies as they were. A
/// successful edit answer gives the post the edited text, id and author.
pub proof fn lemma_replies_only_grow(
    pre: PostTree,
    msg: PostTreeMsg,
    post: PostTree,
    r: (bool, Option<ForumRequest>),
)
    requires
        PostTree::updated(pre, msg, post, r),
    ensures
        msg matches PostTreeMsg::HandleCreatePostReplyResponse(FetchResponse::Success(reply))
            ==> post.post.children@ == pre.post.children@.push(reply),
        !(msg matches PostTreeMsg::HandleCreatePostReplyResponse(FetchResponse::Success(_)))
            ==> post.post.children@ == pre.post.children@,
        msg matches PostTreeMsg::HandleEditPostResponse(FetchResponse::Success(edited)) ==> (
        post.post.content == edited.content && post.post.uuid == edited.uuid && post.post.author
            == edited.author),
{
}

} // verus!
