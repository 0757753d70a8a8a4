//! The records the client shows and edits: users, buckets, questions and
//! answers, forums, threads and posts.

use vstd::prelude::*;
use crate::ids::{AnswerUuid, BucketUuid, ForumUuid, PostUuid, QuestionUuid, ThreadUuid, UserUuid, Uuid};

verus! {

/// A user as other users see them.
#[derive(Debug)]
pub struct UserData {
    pub user_name: String,
    pub display_name: String,
    pub uuid: UserUuid,
}

/// A bucket of questions.
#[derive(Debug)]
pub struct BucketData {
    pub uuid: BucketUuid,
    pub bucket_name: String,
    pub is_public: bool,
}

/// A bucket with the users waiting to join it.
#[derive(Debug)]
pub struct BucketUsersData {
    pub bucket: BucketData,
    pub users: Vec<UserData>,
}

/// An answer to a question.
#[derive(Debug)]
pub struct AnswerData {
    pub uuid: AnswerUuid,
    pub answer_text: Option<String>,
    pub author: UserData,
}

/// An answer being written.
#[derive(Debug)]
pub struct NewAnswerData {
    pub answer_text: Option<String>,
}

/// Where a question lies: drawn and on the floor, or back in the bucket.
#[derive(Clone, Copy, Debug, PartialEq, Eq, Structural)]
pub enum QuestionLocation {
    Floor,
    Bucket,
}

impl Default for QuestionLocation {
    fn default() -> (r: Self)
        ensures
            r == QuestionLocation::Floor,
    {
        QuestionLocation::Floor
    }
}

impl QuestionLocation {
    /// The location a question has when the server says whether it is on the floor.
    pub fn from_on_floor(on_floor: bool) -> (r: QuestionLocation)
        ensures
            r == (if on_floor {
                QuestionLocation::Floor
            } else {
                QuestionLocation::Bucket
            }),
    {
        if on_floor {
            QuestionLocation::Floor
        } else {
            QuestionLocation::Bucket
        }
    }
}

/// A question with its answers.
#[derive(Debug)]
pub struct QuestionData {
    pub uuid: QuestionUuid,
    pub bucket_uuid: BucketUuid,
    pub question_text: String,
    pub author: UserData,
    pub answers: Vec<AnswerData>,
    pub location: QuestionLocation,
}

/// A question being written.
#[derive(Debug)]
pub struct NewQuestionData {
    pub question_text: String,
}

/// A forum.
#[derive(Debug)]
pub struct ForumData {
    pub uuid: ForumUuid,
    pub title: String,
    pub description: String,
}

/// A thread as it appears in a forum's list of threads; the creation date
/// is in seconds since the Unix epoch.
#[derive(Debug)]
pub struct MinimalThreadData {
    pub uuid: ThreadUuid,
    pub title: String,
    pub author: UserData,
    pub created_date: i64,
    pub locked: bool,
}

/// A post with the replies to it.
#[derive(Debug)]
pub struct PostData {
    pub uuid: PostUuid,
    pub author: UserData,
    pub content: String,
    pub children: Vec<PostData>,
}

impl PostData {
    /// Takes over everything of `edited` but its replies; this post keeps its own.
    pub fn merge_childless(&mut self, edited: PostData)
        ensures
            final(self).uuid == edited.uuid,
            final(self).author == edited.author,
            final(self).content == edited.content,
            final(self).children == old(self).children,
    {
        self.uuid = edited.uuid;
        self.author = edited.author;
        self.content = edited.content;
    }
}

/// A thread with its posts.
#[derive(Debug)]
pub struct ThreadData {
    pub uuid: ThreadUuid,
    pub forum_uuid: ForumUuid,
    pub title: String,
    pub author: UserData,
    pub posts: PostData,
    pub created_date: i64,
    pub locked: bool,
}

/// A thread being written: its title and the content of its first post.
#[derive(Debug)]
pub struct NewThreadData {
    pub title: String,
    pub post_content: String,
}

/// The request that creates a new thread.
#[derive(Debug)]
pub struct NewThreadRequest {
    pub forum_uuid: ForumUuid,
    pub author_uuid: UserUuid,
    pub title: String,
    pub post_content: String,
}

/// A user with empty names and the nil identifier.
pub open spec fn is_blank_user(u: UserData) -> bool {
    u.user_name@ == Seq::<char>::empty() && u.display_name@ == Seq::<char>::empty() && u.uuid.value
        == 0
}

impl Default for UserData {
    fn default() -> (r: Self)
        ensures
            is_blank_user(r),
    {
        UserData { user_name: String::new(), display_name: String::new(), uuid: Uuid { value: 0 } }
    }
}

impl Default for QuestionData {
    fn default() -> (r: Self)
        ensures
            r.uuid.value == 0,
            r.bucket_uuid.value == 0,
            r.question_text@ == Seq::<char>::empty(),
            is_blank_user(r.author),
            r.answers@.len() == 0,
            r.location == QuestionLocation::Floor,
    {
        QuestionData {
            uuid: Uuid { value: 0 },
            bucket_uuid: Uuid { value: 0 },
            question_text: String::new(),
            author: UserData::default(),
            answers: Vec::new(),
            location: QuestionLocation::Floor,
        }
    }
}

impl Default for PostData {
    fn default() -> (r: Self)
        ensures
            r.uuid.value == 0,
            is_blank_user(r.author),
            r.content@ == Seq::<char>::empty(),
            r.children@.len() == 0,
    {
        PostData {
            uuid: Uuid { value: 0 },
            author: UserData::default(),
            content: String::new(),
            children: Vec::new(),
        }
    }
}

impl Default for MinimalThreadData {
    /// An empty thread created at the epoch, not locked.
    fn default() -> (r: Self)
        ensures
            r.uuid.value == 0,
            r.title@ == Seq::<char>::empty(),
            is_blank_user(r.author),
            r.created_date == 0,
            !r.locked,
    {
        MinimalThreadData {
            uuid: Uuid { value: 0 },
            title: String::new(),
            author: UserData::default(),
            created_date: 0,
            locked: false,
        }
    }
}

impl Default for ThreadData {
    /// An empty thread created at the epoch, not locked.
    fn default() -> (r: Self)
        ensures
            r.uuid.value == 0,
            r.forum_uuid.value == 0,
            r.title@ == Seq::<char>::empty(),
            is_blank_user(r.author),
            r.posts.uuid.value == 0 && r.posts.children@.len() == 0,
            r.created_date == 0,
            !r.locked,
    {
        ThreadData {
            uuid: Uuid { value: 0 },
            forum_uuid: Uuid { value: 0 },
            title: String::new(),
            author: UserData::default(),
            posts: PostData::default(),
            created_date: 0,
            locked: false,
        }
    }
}

impl Default for NewThreadData {
    fn default() -> (r: Self)
        ensures
            r.title@ == Seq::<char>::empty(),
            r.post_content@ == Seq::<char>::empty(),
    {
        NewThreadData { title: String::new(), post_content: String::new() }
    }
}

impl NewThreadData {
    /// The request that creates this thread in `forum_uuid`, written by `user_uuid`.
    pub fn attach_info(&self, forum_uuid: ForumUuid, user_uuid: UserUuid) -> (r: NewThreadRequest)
        ensures
            r.forum_uuid == forum_uuid,
            r.author_uuid == user_uuid,
            r.title == self.title,
            r.post_content == self.post_content,
    {
        NewThreadRequest {
            forum_uuid,
            author_uuid: user_uuid,
            title: self.title.clone(),
            post_content: self.post_content.clone(),
        }
    }
}

/// A thread in a forum's list, marked when it is the one shown.
#[derive(Debug)]
pub struct SelectableMinimalThreadData {
    pub minimal_thread_data: MinimalThreadData,
    pub forum_uuid: ForumUuid,
    pub is_selected: bool,
}

impl SelectableMinimalThreadData {
    /// A list entry for `minimal_thread_data` in `forum_uuid`, selected when
    /// it is the chosen thread.
    pub fn new(
        minimal_thread_data: MinimalThreadData,
        forum_uuid: ForumUuid,
        chosen_thread_uuid: Option<ThreadUuid>,
    ) -> (r: Self)
        ensures
            r.minimal_thread_data == minimal_thread_data,
            r.forum_uuid == forum_uuid,
            r.is_selected == (chosen_thread_uuid == Some(minimal_thread_data.uuid)),
    {
        let is_selected = match chosen_thread_uuid {
            Some(t) => t.value == minimal_thread_data.uuid.value,
            None => false,
        };
        SelectableMinimalThreadData { minimal_thread_data, forum_uuid, is_selected }
    }
}

/// Marks, in a list of threads, exactly the thread `chosen` as selected.
pub fn select_thread(threads: &mut Vec<SelectableMinimalThreadData>, chosen: ThreadUuid)
    ensures
        final(threads)@.len() == old(threads)@.len(),
        forall|i: int|
            0 <= i < old(threads)@.len() ==> (#[trigger] final(threads)@[i]).minimal_thread_data
                == old(threads)@[i].minimal_thread_data && final(threads)@[i].forum_uuid == old(
                threads,
            )@[i].forum_uuid && final(threads)@[i].is_selected == (
            old(threads)@[i].minimal_thread_data.uuid == chosen),
{
    let len = threads.len();
    let mut i: usize = 0;
    while i < len
        invariant
            len == threads@.len(),
            len == old(threads)@.len(),
            i <= len,
            forall|j: int|
                i <= j < len ==> #[trigger] threads@[j] == old(threads)@[j],
            forall|j: int|
                0 <= j < i ==> (#[trigger] threads@[j]).minimal_thread_data == old(
                    threads,
                )@[j].minimal_thread_data && threads@[j].forum_uuid == old(threads)@[j].forum_uuid
                    && threads@[j].is_selected == (old(threads)@[j].minimal_thread_data.uuid
                    == chosen),
        decreases len - i,
    {
        let entry = &mut threads[i];
        entry.is_selected = entry.minimal_thread_data.uuid.value == chosen.value;
        i = i + 1;
    }
}

} // verus!
