//! The requests the client sends to the server: for each, the path it goes
//! to, whether it needs the user's token, and its HTTP method and body.

use vstd::prelude::*;
use crate::fetch::{Auth, HttpMethod};
use crate::ids::{uuid_text, BucketUuid, ForumUuid, PostUuid, QuestionUuid, ThreadUuid, UserUuid, Uuid};
use crate::datatypes::NewThreadRequest;
use crate::text::{bool_text, decimal_text, push_bool, push_decimal};

verus! {

/// Creates a bucket.
#[derive(Debug)]
pub struct NewBucketRequest {
    pub bucket_name: String,
    pub is_public: bool,
}

/// Answers a question; an empty answer is sent as no text.
#[derive(Debug)]
pub struct NewAnswerRequest {
    pub question_uuid: QuestionUuid,
    pub answer_text: Option<String>,
}

/// Adds a question to a bucket.
#[derive(Debug)]
pub struct NewQuestionRequest {
    pub bucket_uuid: BucketUuid,
    pub question_text: String,
}

/// Creates a forum.
#[derive(Debug)]
pub struct NewForumRequest {
    pub title: String,
    pub description: String,
}

/// Replies to a post, or starts a thread's first post when there is no parent.
#[derive(Debug)]
pub struct NewPostRequest {
    pub author_uuid: UserUuid,
    pub thread_uuid: ThreadUuid,
    pub parent_uuid: Option<PostUuid>,
    pub content: String,
}

/// Changes the content of a post.
#[derive(Debug)]
pub struct EditPostRequest {
    pub uuid: PostUuid,
    pub thread_uuid: ThreadUuid,
    pub content: String,
}

/// Logs a user in.
#[derive(Debug)]
pub struct LoginRequest {
    pub user_name: String,
    pub password: String,
}

/// Creates a user account.
#[derive(Debug)]
pub struct NewUserRequest {
    pub user_name: String,
    pub display_name: String,
    pub plaintext_password: String,
}

/// `prefix` followed by the text of `id`.
pub(crate) fn path_with_id(prefix: &str, id: &Uuid) -> (r: String)
    ensures
        r@ == prefix@ + id.text(),
{
    let mut s = String::from_str(prefix);
    let t = id.to_text();
    s.append(t.as_str());
    s
}

/// `prefix`, the text of `id`, then `suffix`.
pub(crate) fn path_around_id(prefix: &str, id: &Uuid, suffix: &str) -> (r: String)
    ensures
        r@ == prefix@ + id.text() + suffix@,
{
    let mut s = path_with_id(prefix, id);
    s.append(suffix);
    s
}

/// A request about buckets, their members, questions and answers.
#[derive(Debug)]
pub enum BucketRequest {
    GetPublicBuckets,
    GetBucketsForUser,
    GetBucket { bucket_uuid: BucketUuid },
    CreateBucket(NewBucketRequest),
    GetRandomQuestion { bucket_uuid: BucketUuid },
    GetQuestions { bucket_uuid: BucketUuid },
    AnswerQuestion(NewAnswerRequest),
    CreateQuestion(NewQuestionRequest),
    DeleteQuestion { question_uuid: QuestionUuid },
    PutQuestionBackInBucket { question_uuid: QuestionUuid },
    SetBucketPublicStatus { bucket_uuid: BucketUuid, is_public: bool },
    ApproveUserForBucket { bucket_uuid: BucketUuid, user_uuid: UserUuid },
    RemoveUserFromBucket { bucket_uuid: BucketUuid, user_uuid: UserUuid },
    GetUnapprovedUsersForOwnedBuckets,
    GetUsersInBucket { bucket_uuid: BucketUuid },
    GetIsUserOwnerOfBucket { bucket_uuid: BucketUuid },
    CreateJoinBucketRequest { bucket_uuid: BucketUuid },
    GetNumberOfQuestionsInBucket { bucket_uuid: BucketUuid },
}

impl BucketRequest {
    /// The path of the request below the API root.
    pub open spec fn spec_path(&self) -> Seq<char> {
        match *self {
            BucketRequest::GetPublicBuckets => "buckets/public"@,
            BucketRequest::GetBucketsForUser => "buckets/approved"@,
            BucketRequest::GetBucket { bucket_uuid } => "buckets/"@ + bucket_uuid.text(),
            BucketRequest::CreateBucket(_) => "buckets/create"@,
            BucketRequest::GetRandomQuestion { bucket_uuid } => "question/random_question?bucket_uuid="@
                + bucket_uuid.text(),
            BucketRequest::GetQuestions { bucket_uuid } => "question?bucket_uuid="@
                + bucket_uuid.text(),
            BucketRequest::AnswerQuestion(_) => "answer/create"@,
            BucketRequest::CreateQuestion(_) => "question/create"@,
            BucketRequest::DeleteQuestion { question_uuid } => "question/"@
                + question_uuid.text(),
            BucketRequest::PutQuestionBackInBucket { question_uuid } => "question/"@
                + question_uuid.text() + "/into_bucket"@,
            BucketRequest::SetBucketPublicStatus { bucket_uuid, is_public } => "buckets/"@
                + bucket_uuid.text() + "/publicity?is_public="@ + bool_text(is_public),
            BucketRequest::ApproveUserForBucket { bucket_uuid, user_uuid } => "buckets/"@
                + bucket_uuid.text() + "/approval?user_id="@ + user_uuid.text(),
            BucketRequest::RemoveUserFromBucket { bucket_uuid, user_uuid } => "buckets/"@
                + bucket_uuid.text() + "?user_id="@ + user_uuid.text(),
            BucketRequest::GetUnapprovedUsersForOwnedBuckets => "buckets/unapproved_users_for_owned_buckets"@,
            BucketRequest::GetUsersInBucket { bucket_uuid } => "buckets/"@ + bucket_uuid.text()
                + "/users"@,
            BucketRequest::GetIsUserOwnerOfBucket { bucket_uuid } => "buckets/"@
                + bucket_uuid.text() + "/user_owner_status"@,
            BucketRequest::CreateJoinBucketRequest { bucket_uuid } => "buckets/"@
                + bucket_uuid.text() + "/user_join_request"@,
            BucketRequest::GetNumberOfQuestionsInBucket { bucket_uuid } => "/api/question/quantity_in_bucket?bucket_uuid="@
                + bucket_uuid.text(),
        }
    }

    /// The path of the request below the API root.
    pub fn resolve_path(&self) -> (r: String)
        ensures
            r@ == self.spec_path(),
    {
        match self {
            BucketRequest::GetPublicBuckets => String::from_str("buckets/public"),
            BucketRequest::GetBucketsForUser => String::from_str("buckets/approved"),
            BucketRequest::GetBucket { bucket_uuid } => path_with_id("buckets/", bucket_uuid),
            BucketRequest::CreateBucket(_) => String::from_str("buckets/create"),
            BucketRequest::GetRandomQuestion { bucket_uuid } => path_with_id(
                "question/random_question?bucket_uuid=",
                bucket_uuid,
            ),
            BucketRequest::GetQuestions { bucket_uuid } => path_with_id(
                "question?bucket_uuid=",
                bucket_uuid,
            ),
            BucketRequest::AnswerQuestion(_) => String::from_str("answer/create"),
            BucketRequest::CreateQuestion(_) => String::from_str("question/create"),
            BucketRequest::DeleteQuestion { question_uuid } => path_with_id(
                "question/",
                question_uuid,
            ),
            BucketRequest::PutQuestionBackInBucket { question_uuid } => path_around_id(
                "question/",
                question_uuid,
                "/into_bucket",
            ),
            BucketRequest::SetBucketPublicStatus { bucket_uuid, is_public } => {
                let mut s = path_around_id("buckets/", bucket_uuid, "/publicity?is_public=");
                push_bool(&mut s, *is_public);
                s
            },
            BucketRequest::ApproveUserForBucket { bucket_uuid, user_uuid } => {
                let mut s = path_around_id("buckets/", bucket_uuid, "/approval?user_id=");
                let t = user_uuid.to_text();
                s.append(t.as_str());
                s
            },
            BucketRequest::RemoveUserFromBucket { bucket_uuid, user_uuid } => {
                let mut s = path_around_id("buckets/", bucket_uuid, "?user_id=");
                let t = user_uuid.to_text();
                s.append(t.as_str());
                s
            },
            BucketRequest::GetUnapprovedUsersForOwnedBuckets => String::from_str(
                "buckets/unapproved_users_for_owned_buckets",
            ),
            BucketRequest::GetUsersInBucket { bucket_uuid } => path_around_id(
                "buckets/",
                bucket_uuid,
                "/users",
            ),
            BucketRequest::GetIsUserOwnerOfBucket { bucket_uuid } => path_around_id(
                "buckets/",
                bucket_uuid,
                "/user_owner_status",
            ),
            BucketRequest::CreateJoinBucketRequest { bucket_uuid } => path_around_id(
                "buckets/",
                bucket_uuid,
                "/user_join_request",
            ),
            BucketRequest::GetNumberOfQuestionsInBucket { bucket_uuid } => path_with_id(
                "/api/question/quantity_in_bucket?bucket_uuid=",
                bucket_uuid,
            ),
        }
    }

    /// Only questions of a bucket can be drawn or listed without a token.
    pub open spec fn spec_auth(&self) -> Auth {
        match *self {
            BucketRequest::GetRandomQuestion { .. } => Auth::NotRequired,
            BucketRequest::GetQuestions { .. } => Auth::NotRequired,
            _ => Auth::Required,
        }
    }

    /// Whether the request needs the user's token.
    pub fn resolve_auth(&self) -> (r: Auth)
        ensures
            r == self.spec_auth(),
    {
        match self {
            BucketRequest::GetRandomQuestion { .. } => Auth::NotRequired,
            BucketRequest::GetQuestions { .. } => Auth::NotRequired,
            _ => Auth::Required,
        }
    }

    /// Whether the request sends a record as its body.
    pub open spec fn spec_has_payload(&self) -> bool {
        match *self {
            BucketRequest::CreateBucket(_) => true,
            BucketRequest::AnswerQuestion(_) => true,
            BucketRequest::CreateQuestion(_) => true,
            _ => false,
        }
    }

    /// The method of the request; `payload_json` is the JSON text of the
    /// record the request carries, which becomes the body of the requests
    /// that carry one (the others ignore it).
    pub fn resolve_body_and_method(&self, payload_json: String) -> (r: HttpMethod)
        ensures
            match *self {
                BucketRequest::CreateBucket(_) => r == HttpMethod::Post(payload_json),
                BucketRequest::AnswerQuestion(_) => r == HttpMethod::Post(payload_json),
                BucketRequest::CreateQuestion(_) => r == HttpMethod::Post(payload_json),
                BucketRequest::DeleteQuestion { .. } => r is Delete,
                BucketRequest::RemoveUserFromBucket { .. } => r is Delete,
                BucketRequest::PutQuestionBackInBucket { .. } => r matches HttpMethod::Put(b)
                    && b@ == Seq::<char>::empty(),
                BucketRequest::SetBucketPublicStatus { .. } => r matches HttpMethod::Put(b) && b@
                    == Seq::<char>::empty(),
                BucketRequest::ApproveUserForBucket { .. } => r matches HttpMethod::Put(b) && b@
                    == Seq::<char>::empty(),
                BucketRequest::CreateJoinBucketRequest { .. } => r matches HttpMethod::Post(b)
                    && b@ == Seq::<char>::empty(),
                _ => r is Get,
            },
    {
        match self {
            BucketRequest::CreateBucket(_) => HttpMethod::Post(payload_json),
            BucketRequest::AnswerQuestion(_) => HttpMethod::Post(payload_json),
            BucketRequest::CreateQuestion(_) => HttpMethod::Post(payload_json),
            BucketRequest::DeleteQuestion { .. } => HttpMethod::Delete,
            BucketRequest::RemoveUserFromBucket { .. } => HttpMethod::Delete,
            BucketRequest::PutQuestionBackInBucket { .. } => HttpMethod::Put(String::new()),
            BucketRequest::SetBucketPublicStatus { .. } => HttpMethod::Put(String::new()),
            BucketRequest::ApproveUserForBucket { .. } => HttpMethod::Put(String::new()),
            BucketRequest::CreateJoinBucketRequest { .. } => HttpMethod::Post(String::new()),
            _ => HttpMethod::Get,
        }
    }
}

/// A request about forums, threads and posts.
#[derive(Debug)]
pub enum ForumRequest {
    CreateThread(NewThreadRequest),
    CreateForum(NewForumRequest),
    GetThreads { forum_uuid: ForumUuid, page_index: usize },
    GetForums,
    GetForum { forum_uuid: ForumUuid },
    GetThread { thread_uuid: ThreadUuid },
    CreatePostResponse(NewPostRequest),
    UpdatePost(EditPostRequest),
}

impl ForumRequest {
    /// The path of the request below the API root.
    pub open spec fn spec_path(&self) -> Seq<char> {
        match *self {
            ForumRequest::CreateThread(_) => "thread/create"@,
            ForumRequest::CreateForum(_) => "forum/create"@,
            ForumRequest::GetThreads { forum_uuid, page_index } => "thread/get/"@
                + forum_uuid.text() + "/"@ + decimal_text(page_index as nat),
            ForumRequest::GetForums => "forum/forums"@,
            ForumRequest::GetForum { forum_uuid } => "forum/"@ + forum_uuid.text(),
            ForumRequest::GetThread { thread_uuid } => "thread/"@ + thread_uuid.text(),
            ForumRequest::CreatePostResponse(_) => "post/create"@,
            ForumRequest::UpdatePost(_) => "post/edit"@,
        }
    }

    /// The path of the request below the API root.
    pub fn resolve_path(&self) -> (r: String)
        ensures
            r@ == self.spec_path(),
    {
        match self {
            ForumRequest::CreateThread(_) => String::from_str("thread/create"),
            ForumRequest::CreateForum(_) => String::from_str("forum/create"),
            ForumRequest::GetThreads { forum_uuid, page_index } => {
                let mut s = path_around_id("thread/get/", forum_uuid, "/");
                push_decimal(&mut s, *page_index as u64);
                s
            },
            ForumRequest::GetForums => String::from_str("forum/forums"),
            ForumRequest::GetForum { forum_uuid } => path_with_id("forum/", forum_uuid),
            ForumRequest::GetThread { thread_uuid } => path_with_id("thread/", thread_uuid),
            ForumRequest::CreatePostResponse(_) => String::from_str("post/create"),
            ForumRequest::UpdatePost(_) => String::from_str("post/edit"),
        }
    }

    /// Creating threads, forums and posts, and editing posts, need a token.
    pub open spec fn spec_auth(&self) -> Auth {
        match *self {
            ForumRequest::CreateThread(_) => Auth::Required,
            ForumRequest::CreateForum(_) => Auth::Required,
            ForumRequest::CreatePostResponse(_) => Auth::Required,
            ForumRequest::UpdatePost(_) => Auth::Required,
            _ => Auth::NotRequired,
        }
    }

    /// Whether the request needs the user's token.
    pub fn resolve_auth(&self) -> (r: Auth)
        ensures
            r == self.spec_auth(),
    {
        match self {
            ForumRequest::CreateThread(_) => Auth::Required,
            ForumRequest::CreateForum(_) => Auth::Required,
            ForumRequest::CreatePostResponse(_) => Auth::Required,
            ForumRequest::UpdatePost(_) => Auth::Required,
            _ => Auth::NotRequired,
        }
    }

    /// Whether the request sends a record as its body.
    pub open spec fn spec_has_payload(&self) -> bool {
        match *self {
            ForumRequest::CreateThread(_) => true,
            ForumRequest::CreateForum(_) => true,
            ForumRequest::CreatePostResponse(_) => true,
            ForumRequest::UpdatePost(_) => true,
            _ => false,
        }
    }

    /// The method of the request; `payload_json` is the JSON text of the
    /// record the request carries (the others ignore it).
    pub fn resolve_body_and_method(&self, payload_json: String) -> (r: HttpMethod)
        ensures
            match *self {
                ForumRequest::CreateThread(_) => r == HttpMethod::Post(payload_json),
                ForumRequest::CreateForum(_) => r == HttpMethod::Post(payload_json),
                ForumRequest::CreatePostResponse(_) => r == HttpMethod::Post(payload_json),
                ForumRequest::UpdatePost(_) => r == HttpMethod::Put(payload_json),
                _ => r is Get,
            },
    {
        match self {
            ForumRequest::CreateThread(_) => HttpMethod::Post(payload_json),
            ForumRequest::CreateForum(_) => HttpMethod::Post(payload_json),
            ForumRequest::CreatePostResponse(_) => HttpMethod::Post(payload_json),
            ForumRequest::UpdatePost(_) => HttpMethod::Put(payload_json),
            _ => HttpMethod::Get,
        }
    }
}

/// A request about accounts.
#[derive(Debug)]
pub enum AuthRequest {
    Login(LoginRequest),
    CreateUser(NewUserRequest),
}

impl AuthRequest {
    /// The path of the request below the API root.
    pub open spec fn spec_path(&self) -> Seq<char> {
        match *self {
            AuthRequest::Login(_) => "auth/login"@,
            AuthRequest::CreateUser(_) => "user/"@,
        }
    }

    /// The path of the request below the API root.
    pub fn resolve_path(&self) -> (r: String)
        ensures
            r@ == self.spec_path(),
    {
        match self {
            AuthRequest::Login(_) => String::from_str("auth/login"),
            AuthRequest::CreateUser(_) => String::from_str("user/"),
        }
    }

    /// No account request needs a token.
    pub fn resolve_auth(&self) -> (r: Auth)
        ensures
            r == Auth::NotRequired,
    {
        Auth::NotRequired
    }

    /// Both account requests post their record, whose JSON text is `payload_json`.
    pub fn resolve_body_and_method(&self, payload_json: String) -> (r: HttpMethod)
        ensures
            r == HttpMethod::Post(payload_json),
    {
        HttpMethod::Post(payload_json)
    }
}

/// The requests about a user's membership of a bucket name the bucket right
/// after `buckets/` and the user after `user_id=`, at the end: approving is
/// `buckets/<bucket>/approval?user_id=<user>`, removing is
/// `buckets/<bucket>?user_id=<user>`. The bucket's text fills the 36
/// places after `buckets/`, the user's text the last 36 places.
pub proof fn lemma_membership_paths(bucket: BucketUuid, user: UserUuid)
    ensures
        (BucketRequest::ApproveUserForBucket { bucket_uuid: bucket, user_uuid: user }).spec_path()
            == "buckets/"@ + uuid_text(bucket.value) + "/approval?user_id="@ + uuid_text(user.value),
        (BucketRequest::RemoveUserFromBucket { bucket_uuid: bucket, user_uuid: user }).spec_path()
            == "buckets/"@ + uuid_text(bucket.value) + "?user_id="@ + uuid_text(user.value),
        ({
            let p = (BucketRequest::ApproveUserForBucket { bucket_uuid: bucket, user_uuid: user }).spec_path();
            p.subrange(8, 44) == uuid_text(bucket.value) && p.subrange(p.len() - 36, p.len() as int)
                == uuid_text(user.value)
        }),
        ({
            let p = (BucketRequest::RemoveUserFromBucket { bucket_uuid: bucket, user_uuid: user }).spec_path();
            p.subrange(8, 44) == uuid_text(bucket.value) && p.subrange(p.len() - 36, p.len() as int)
                == uuid_text(user.value)
        }),
{
    reveal_strlit("buckets/");
    reveal_strlit("/approval?user_id=");
    reveal_strlit("?user_id=");
    let a = (BucketRequest::ApproveUserForBucket { bucket_uuid: bucket, user_uuid: user }).spec_path();
    let d = (BucketRequest::RemoveUserFromBucket { bucket_uuid: bucket, user_uuid: user }).spec_path();
    assert(a.subrange(8, 44) =~= uuid_text(bucket.value));
    assert(a.subrange(a.len() - 36, a.len() as int) =~= uuid_text(user.value));
    assert(d.subrange(8, 44) =~= uuid_text(bucket.value));
    assert(d.subrange(d.len() - 36, d.len() as int) =~= uuid_text(user.value));
}

} // verus!
