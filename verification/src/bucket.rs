//! The bucket lobby: drawing a question out of a bucket, answering it,
//! adding new questions, and the list of questions already drawn.

use vstd::prelude::*;
use crate::datatypes::{BucketData, QuestionData, QuestionLocation};
use crate::fetch::FetchResponse;
use crate::ids::{uuid_text, QuestionUuid};
use crate::input::{is_blank_input, InputState};
use crate::loadable::{Loadable, Uploadable};
use crate::requests::{BucketRequest, NewAnswerRequest, NewQuestionRequest};

verus! {

/// A drawn question and the answer being written to it.
#[derive(Debug)]
pub struct QuestionPackage {
    pub question_data: QuestionData,
    pub answer: InputState,
}

impl Default for QuestionPackage {
    fn default() -> (r: Self)
        ensures
            r.question_data.uuid.value == 0,
            r.question_data.question_text@ == Seq::<char>::empty(),
            is_blank_input(r.answer),
    {
        QuestionPackage { question_data: QuestionData::default(), answer: InputState::default() }
    }
}

/// The questions already drawn, and which of them are shown: those on the
/// floor or those back in the bucket.
#[derive(Debug)]
pub struct QuestionList {
    pub list: Vec<QuestionData>,
    pub filter: QuestionLocation,
}

/// A question being written for the bucket.
#[derive(Debug)]
pub struct NewQuestion {
    pub question_text: InputState,
}

impl Default for NewQuestion {
    fn default() -> (r: Self)
        ensures
            r.question_text matches InputState::Unvalidated { text } && text@ == Seq::<
                char,
            >::empty(),
    {
        NewQuestion { question_text: InputState::default() }
    }
}

/// A question is acceptable when it has some text.
pub fn validate_new_question(text: String) -> (r: Result<String, String>)
    ensures
        text@.len() == 0 ==> (r matches Err(e) && e@ == "New question must contain some text"@),
        text@.len() > 0 ==> r == Ok::<String, String>(text),
{
    if text.as_str().is_empty() {
        Err(String::from_str("New question must contain some text"))
    } else {
        Ok(text)
    }
}

/// `q`, moved back into the bucket when it is the question `uuid`.
pub open spec fn returned_to_bucket(q: QuestionData, uuid: QuestionUuid) -> QuestionData {
    if q.uuid == uuid {
        QuestionData { location: QuestionLocation::Bucket, ..q }
    } else {
        q
    }
}

/// Moves the question `uuid` of `list` back into the bucket.
pub fn return_question_to_bucket(list: &mut Vec<QuestionData>, uuid: QuestionUuid)
    ensures
        final(list)@.len() == old(list)@.len(),
        forall|i: int|
            0 <= i < old(list)@.len() ==> #[trigger] final(list)@[i] == returned_to_bucket(
                old(list)@[i],
                uuid,
            ),
{
    let len = list.len();
    let mut i: usize = 0;
    while i < len
        invariant
            len == list@.len(),
            len == old(list)@.len(),
            i <= len,
            forall|j: int| i <= j < len ==> #[trigger] list@[j] == old(list)@[j],
            forall|j: int|
                0 <= j < i ==> #[trigger] list@[j] == returned_to_bucket(old(list)@[j], uuid),
        decreases len - i,
    {
        let entry = &mut list[i];
        if entry.uuid.value == uuid.value {
            entry.location = QuestionLocation::Bucket;
        }
        i = i + 1;
    }
}

/// The question is not `uuid`.
pub open spec fn is_other_question(uuid: QuestionUuid) -> spec_fn(QuestionData) -> bool {
    |q: QuestionData| q.uuid != uuid
}

/// `list` without the question `uuid`, in the same order.
pub fn without_question(list: Vec<QuestionData>, uuid: QuestionUuid) -> (r: Vec<QuestionData>)
    ensures
        r@ == list@.filter(is_other_question(uuid)),
{
    let ghost orig = list@;
    let total = list.len();
    let mut rest = list;
    let mut kept: Vec<QuestionData> = Vec::new();
    let mut k: usize = 0;
    while rest.len() > 0
        invariant
            k <= orig.len(),
            orig.len() == total,
            rest@ == orig.skip(k as int),
            kept@ == orig.take(k as int).filter(is_other_question(uuid)),
        decreases rest@.len(),
    {
        let q = rest.remove(0);
        proof {
            reveal_with_fuel(Seq::<_>::filter, 1);
            assert(orig.take(k + 1).drop_last() =~= orig.take(k as int));
            assert(orig[k as int] == q);
        }
        if q.uuid.value != uuid.value {
            kept.push(q);
        }
        k = k + 1;
        assert(rest@ =~= orig.skip(k as int));
    }
    assert(orig.take(k as int) =~= orig);
    kept
}

/// What the bucket lobby is told.
#[derive(Debug)]
pub enum BucketLobbyMsg {
    DrawRandomQuestion,
    HandleDrawRandomQuestionResponse(FetchResponse<Uploadable<QuestionPackage>>),
    UpdateAnswer(InputState),
    SubmitAnswer,
    HandleSubmitAnswerResponse(FetchResponse<()>),
    UpdateNewQuestion(InputState),
    SubmitNewQuestion,
    HandleSubmitNewQuestionResponse(FetchResponse<()>),
    ResetCreateQuestionText,
    HandlePriorQuestionResponse(FetchResponse<Vec<QuestionData>>),
    PutOldQuestionBackInBucket { question_uuid: QuestionUuid },
    HandlePutOldQuestionBackInBucketResponse(FetchResponse<QuestionUuid>),
    DiscardQuestion,
    HandleDiscardQuestionResponse(FetchResponse<QuestionUuid>),
    SetListFilter(QuestionLocation),
    NoOp,
}

/// The bucket lobby's state.
#[derive(Debug)]
pub struct BucketLobby {
    pub bucket_data: BucketData,
    pub active_question: Loadable<Uploadable<QuestionPackage>>,
    pub new_question: Uploadable<NewQuestion>,
    pub prior_questions_and_answers: Loadable<QuestionList>,
}

/// A fresh question form.
pub open spec fn is_fresh_new_question(u: Uploadable<NewQuestion>) -> bool {
    u matches Uploadable::NotUploaded(n) && n.question_text matches InputState::Unvalidated {
        text,
    } && text@ == Seq::<char>::empty()
}

/// The answer request for a drawn question: an empty answer carries no text.
pub open spec fn answer_request_for(package: QuestionPackage) -> BucketRequest {
    let text = package.answer.text();
    BucketRequest::AnswerQuestion(
        NewAnswerRequest {
            question_uuid: package.question_data.uuid,
            answer_text: if text@.len() > 0 {
                Some(text)
            } else {
                None
            },
        },
    )
}

impl BucketLobby {
    /// The lobby of `bucket_data` when it opens, and the request it sends
    /// for the bucket's questions.
    pub fn create(bucket_data: BucketData) -> (r: (BucketLobby, BucketRequest))
        ensures
            r.0.bucket_data == bucket_data,
            (r.0.active_question is Unloaded),
            is_fresh_new_question(r.0.new_question),
            (r.0.prior_questions_and_answers is Unloaded),
            r.1 == (BucketRequest::GetQuestions { bucket_uuid: bucket_data.uuid }),
    {
        let bucket_uuid = bucket_data.uuid;
        let lobby = BucketLobby {
            bucket_data,
            active_question: Loadable::Unloaded,
            new_question: Uploadable::NotUploaded(NewQuestion::default()),
            prior_questions_and_answers: Loadable::Unloaded,
        };
        (lobby, BucketRequest::GetQuestions { bucket_uuid })
    }

    /// A new bucket is shown: everything is reset and its questions requested.
    pub fn change(&mut self, bucket_data: BucketData) -> (r: (bool, BucketRequest))
        ensures
            final(self).bucket_data == bucket_data,
            (final(self).active_question is Unloaded),
            is_fresh_new_question(final(self).new_question),
            (final(self).prior_questions_and_answers is Unloaded),
            r.0,
            r.1 == (BucketRequest::GetQuestions { bucket_uuid: bucket_data.uuid }),
    {
        let bucket_uuid = bucket_data.uuid;
        self.bucket_data = bucket_data;
        self.active_question = Loadable::Unloaded;
        self.new_question = Uploadable::NotUploaded(NewQuestion::default());
        self.prior_questions_and_answers = Loadable::Unloaded;
        (true, BucketRequest::GetQuestions { bucket_uuid })
    }

    /// How handling `msg` takes the lobby from `pre` to `post`, with `r`
    /// saying whether to render again and which request to send.
    pub open spec fn updated(pre: BucketLobby, msg: BucketLobbyMsg, post: BucketLobby, r: (
        bool,
        Option<BucketRequest>,
    )) -> bool {
        &&& post.bucket_data == pre.bucket_data
        &&& r.0 == !(msg is NoOp)
        &&& match msg {
                BucketLobbyMsg::DrawRandomQuestion => {
                    &&& r.1 == Some(
                        BucketRequest::GetRandomQuestion {
                            bucket_uuid: pre.bucket_data.uuid,
                        },
                    )
                    &&& post.active_question == pre.active_question
                    &&& post.new_question == pre.new_question
                    &&& post.prior_questions_and_answers == pre.prior_questions_and_answers
                },
                BucketLobbyMsg::HandleDrawRandomQuestionResponse(response) => {
                    &&& r.1 is None
                    &&& post.active_question == match response {
                        FetchResponse::Success(q) => Loadable::Loaded(q),
                        FetchResponse::Error(_) => Loadable::Failed(None),
                        FetchResponse::Started => Loadable::Loading,
                    }
                    &&& post.new_question == pre.new_question
                    &&& post.prior_questions_and_answers == pre.prior_questions_and_answers
                },
                BucketLobbyMsg::UpdateAnswer(input) => {
                    &&& r.1 is None
                    &&& post.active_question == match pre.active_question {
                        Loadable::Loaded(u) => Loadable::Loaded(
                            match u {
                                Uploadable::NotUploaded(p) => Uploadable::NotUploaded(
                                    QuestionPackage { answer: input, ..p },
                                ),
                                Uploadable::Uploading(p) => Uploadable::Uploading(
                                    QuestionPackage { answer: input, ..p },
                                ),
                                Uploadable::Failed(p, m) => Uploadable::Failed(
                                    QuestionPackage { answer: input, ..p },
                                    m,
                                ),
                            },
                        ),
                        other => other,
                    }
                    &&& post.new_question == pre.new_question
                    &&& post.prior_questions_and_answers == pre.prior_questions_and_answers
                },
                BucketLobbyMsg::SubmitAnswer => {
                    &&& r.1 == match pre.active_question {
                        Loadable::Loaded(u) => Some(answer_request_for(u.inner())),
                        _ => None,
                    }
                    &&& post.active_question == pre.active_question
                    &&& post.new_question == pre.new_question
                    &&& post.prior_questions_and_answers == pre.prior_questions_and_answers
                },
                BucketLobbyMsg::HandleSubmitAnswerResponse(response) => {
                    &&& post.new_question == pre.new_question
                    &&& post.prior_questions_and_answers == pre.prior_questions_and_answers
                    &&& match response {
                        FetchResponse::Success(_) => {
                            &&& r.1 == Some(
                                BucketRequest::GetQuestions {
                                    bucket_uuid: pre.bucket_data.uuid,
                                },
                            )
                            &&& post.active_question is Unloaded
                        },
                        FetchResponse::Error(_) => {
                            &&& r.1 is None
                            &&& match pre.active_question {
                                Loadable::Loaded(u) => post.active_question matches Loadable::Loaded(
                                    Uploadable::Failed(p, m),
                                ) && p == u.inner() && m@ == "failed to submit Answer"@,
                                other => post.active_question == other,
                            }
                        },
                        FetchResponse::Started => {
                            &&& r.1 is None
                            &&& post.active_question == match pre.active_question {
                                Loadable::Loaded(u) => Loadable::Loaded(
                                    Uploadable::Uploading(u.inner()),
                                ),
                                other => other,
                            }
                        },
                    }
                },
                BucketLobbyMsg::UpdateNewQuestion(input) => {
                    &&& r.1 is None
                    &&& post.new_question == match pre.new_question {
                        Uploadable::NotUploaded(_) => Uploadable::NotUploaded(
                            NewQuestion { question_text: input },
                        ),
                        Uploadable::Uploading(_) => Uploadable::Uploading(
                            NewQuestion { question_text: input },
                        ),
                        Uploadable::Failed(_, m) => Uploadable::Failed(
                            NewQuestion { question_text: input },
                            m,
                        ),
                    }
                    &&& post.active_question == pre.active_question
                    &&& post.prior_questions_and_answers == pre.prior_questions_and_answers
                },
                BucketLobbyMsg::SubmitNewQuestion => {
                    &&& r.1 == Some(
                        BucketRequest::CreateQuestion(
                            NewQuestionRequest {
                                bucket_uuid: pre.bucket_data.uuid,
                                question_text: pre.new_question.inner().question_text.text(),
                            },
                        ),
                    )
                    &&& post.active_question == pre.active_question
                    &&& post.new_question == pre.new_question
                    &&& post.prior_questions_and_answers == pre.prior_questions_and_answers
                },
                BucketLobbyMsg::HandleSubmitNewQuestionResponse(response) => {
                    &&& r.1 is None
                    &&& post.active_question == pre.active_question
                    &&& post.prior_questions_and_answers == pre.prior_questions_and_answers
                    &&& match response {
                        FetchResponse::Success(_) => is_fresh_new_question(
                            post.new_question,
                        ),
                        FetchResponse::Error(_) => post.new_question matches Uploadable::Failed(
                            n,
                            m,
                        ) && n == pre.new_question.inner() && m@
                            == "failed to submit question"@,
                        FetchResponse::Started => post.new_question == Uploadable::Uploading(
                            pre.new_question.inner(),
                        ),
                    }
                },
                BucketLobbyMsg::ResetCreateQuestionText => {
                    &&& r.1 is None
                    &&& is_fresh_new_question(post.new_question)
                    &&& post.active_question == pre.active_question
                    &&& post.prior_questions_and_answers == pre.prior_questions_and_answers
                },
                BucketLobbyMsg::HandlePriorQuestionResponse(response) => {
                    &&& r.1 is None
                    &&& post.active_question == pre.active_question
                    &&& post.new_question == pre.new_question
                    &&& match response {
                        FetchResponse::Success(questions) => match pre.prior_questions_and_answers {
                            Loadable::Loaded(l) => post.prior_questions_and_answers matches Loadable::Loaded(nl)
                                && nl.list@ == questions@ && nl.filter == l.filter,
                            _ => post.prior_questions_and_answers matches Loadable::Loaded(
                                nl,
                            ) && nl.list@ == questions@ && nl.filter == QuestionLocation::Floor,
                        },
                        FetchResponse::Error(_) => post.prior_questions_and_answers matches Loadable::Failed(Some(m)) && m@
                            == "Could not load old questions"@,
                        FetchResponse::Started => post.prior_questions_and_answers
                            is Loading,
                    }
                },
                BucketLobbyMsg::PutOldQuestionBackInBucket { question_uuid } => {
                    &&& r.1 == Some(BucketRequest::PutQuestionBackInBucket { question_uuid })
                    &&& post.active_question == pre.active_question
                    &&& post.new_question == pre.new_question
                    &&& post.prior_questions_and_answers == pre.prior_questions_and_answers
                },
                BucketLobbyMsg::HandlePutOldQuestionBackInBucketResponse(response) => {
                    &&& r.1 is None
                    &&& post.active_question == pre.active_question
                    &&& post.new_question == pre.new_question
                    &&& match (response, pre.prior_questions_and_answers) {
                        (FetchResponse::Success(uuid), Loadable::Loaded(l)) => post.prior_questions_and_answers matches Loadable::Loaded(nl) && nl.filter
                            == l.filter && nl.list@.len() == l.list@.len() && forall|i: int|
                            0 <= i < l.list@.len() ==> #[trigger] nl.list@[i]
                                == returned_to_bucket(l.list@[i], uuid),
                        _ => post.prior_questions_and_answers == pre.prior_questions_and_answers,
                    }
                },
                BucketLobbyMsg::DiscardQuestion => {
                    &&& r.1 == match pre.active_question {
                        Loadable::Loaded(u) => Some(
                            BucketRequest::DeleteQuestion {
                                question_uuid: u.inner().question_data.uuid,
                            },
                        ),
                        _ => None,
                    }
                    &&& post.active_question == pre.active_question
                    &&& post.new_question == pre.new_question
                    &&& post.prior_questions_and_answers == pre.prior_questions_and_answers
                },
                BucketLobbyMsg::HandleDiscardQuestionResponse(response) => {
                    &&& r.1 is None
                    &&& post.active_question == pre.active_question
                    &&& post.new_question == pre.new_question
                    &&& match (response, pre.prior_questions_and_answers) {
                        (FetchResponse::Success(uuid), Loadable::Loaded(l)) => post.prior_questions_and_answers matches Loadable::Loaded(nl) && nl.filter
                            == l.filter && nl.list@ == l.list@.filter(is_other_question(uuid)),
                        _ => post.prior_questions_and_answers == pre.prior_questions_and_answers,
                    }
                },
                BucketLobbyMsg::SetListFilter(location) => {
                    &&& r.1 is None
                    &&& post.active_question == pre.active_question
                    &&& post.new_question == pre.new_question
                    &&& post.prior_questions_and_answers == match pre.prior_questions_and_answers {
                        Loadable::Loaded(l) => Loadable::Loaded(
                            QuestionList { filter: location, ..l },
                        ),
                        other => other,
                    }
                },
                BucketLobbyMsg::NoOp => {
                    &&& r.1 is None
                    &&& post.active_question == pre.active_question
                    &&& post.new_question == pre.new_question
                    &&& post.prior_questions_and_answers == pre.prior_questions_and_answers
                },
            }
    }

    /// Handles `msg`; returns whether to render again and the request to
    /// send, if any.
    pub fn update(&mut self, msg: BucketLobbyMsg) -> (r: (bool, Option<BucketRequest>))
        ensures
            Self::updated(*old(self), msg, *final(self), r),
    {
        match msg {
            BucketLobbyMsg::DrawRandomQuestion => {
                let bucket_uuid = self.bucket_data.uuid;
                (true, Some(BucketRequest::GetRandomQuestion { bucket_uuid }))
            },
            BucketLobbyMsg::HandleDrawRandomQuestionResponse(response) => {
                self.active_question = Loadable::from_fetch_response(response);
                (true, None)
            },
            BucketLobbyMsg::UpdateAnswer(input) => {
                if let Loadable::Loaded(question_package) = &mut self.active_question {
                    question_package.as_mut().answer = input;
                }
                (true, None)
            },
            BucketLobbyMsg::SubmitAnswer => {
                let request = match self.active_question.as_option() {
                    Some(question_package) => {
                        let package = question_package.as_ref();
                        let text = package.answer.inner_text();
                        let answer_text = if text.as_str().is_empty() {
                            None
                        } else {
                            Some(text)
                        };
                        Some(
                            BucketRequest::AnswerQuestion(
                                NewAnswerRequest {
                                    question_uuid: package.question_data.uuid,
                                    answer_text,
                                },
                            ),
                        )
                    },
                    None => None,
                };
                (true, request)
            },
            BucketLobbyMsg::HandleSubmitAnswerResponse(response) => {
                match response {
                    FetchResponse::Success(_) => {
                        let bucket_uuid = self.bucket_data.uuid;
                        self.active_question = Loadable::Unloaded;
                        (true, Some(BucketRequest::GetQuestions { bucket_uuid }))
                    },
                    FetchResponse::Error(_) => {
                        if let Loadable::Loaded(active_uploadable) = &mut self.active_question {
                            active_uploadable.set_failed("failed to submit Answer");
                        }
                        (true, None)
                    },
                    FetchResponse::Started => {
                        if let Loadable::Loaded(active_uploadable) = &mut self.active_question {
                            active_uploadable.set_uploading();
                        }
                        (true, None)
                    },
                }
            },
            BucketLobbyMsg::UpdateNewQuestion(input) => {
                self.new_question.as_mut().question_text = input;
                (true, None)
            },
            BucketLobbyMsg::SubmitNewQuestion => {
                let question_text = self.new_question.as_ref().question_text.inner_text();
                let bucket_uuid = self.bucket_data.uuid;
                (
                    true,
                    Some(
                        BucketRequest::CreateQuestion(
                            NewQuestionRequest { bucket_uuid, question_text },
                        ),
                    ),
                )
            },
            BucketLobbyMsg::HandleSubmitNewQuestionResponse(response) => {
                match response {
                    FetchResponse::Success(_) => {
                        self.new_question = Uploadable::NotUploaded(NewQuestion::default());
                    },
                    FetchResponse::Error(_) => {
                        self.new_question.set_failed("failed to submit question");
                    },
                    FetchResponse::Started => {
                        self.new_question.set_uploading();
                    },
                }
                (true, None)
            },
            BucketLobbyMsg::ResetCreateQuestionText => {
                self.new_question = Uploadable::NotUploaded(NewQuestion::default());
                (true, None)
            },
            BucketLobbyMsg::HandlePriorQuestionResponse(response) => {
                match response {
                    FetchResponse::Success(questions) => {
                        if let Loadable::Loaded(old_list) = &mut self.prior_questions_and_answers {
                            old_list.list = questions;
                        } else {
                            let new_list = QuestionList {
                                list: questions,
                                filter: QuestionLocation::Floor,
                            };
                            self.prior_questions_and_answers = Loadable::Loaded(new_list);
                        }
                    },
                    FetchResponse::Error(_) => {
                        self.prior_questions_and_answers = Loadable::Failed(
                            Some(String::from_str("Could not load old questions")),
                        );
                    },
                    FetchResponse::Started => {
                        self.prior_questions_and_answers = Loadable::Loading;
                    },
                }
                (true, None)
            },
            BucketLobbyMsg::PutOldQuestionBackInBucket { question_uuid } => {
                (true, Some(BucketRequest::PutQuestionBackInBucket { question_uuid }))
            },
            BucketLobbyMsg::HandlePutOldQuestionBackInBucketResponse(response) => {
                if let FetchResponse::Success(question_uuid) = response {
                    if let Loadable::Loaded(q_list) = &mut self.prior_questions_and_answers {
                        return_question_to_bucket(&mut q_list.list, question_uuid);
                    }
                }
                (true, None)
            },
            BucketLobbyMsg::DiscardQuestion => {
                let request = match self.active_question.as_option() {
                    Some(package) => Some(
                        BucketRequest::DeleteQuestion {
                            question_uuid: package.as_ref().question_data.uuid,
                        },
                    ),
                    None => None,
                };
                (true, request)
            },
            BucketLobbyMsg::HandleDiscardQuestionResponse(response) => {
                if let FetchResponse::Success(question_uuid) = response {
                    if let Loadable::Loaded(old_list) = &mut self.prior_questions_and_answers {
                        let mut list = Vec::new();
                        std::mem::swap(&mut list, &mut old_list.list);
                        old_list.list = without_question(list, question_uuid);
                    }
                }
                (true, None)
            },
            BucketLobbyMsg::SetListFilter(location) => {
                if let Loadable::Loaded(old_list) = &mut self.prior_questions_and_answers {
                    old_list.filter = location;
                }
                (true, None)
            },
            BucketLobbyMsg::NoOp => (false, None),
        }
    }
}

/// Discarding deletes: discarding a drawn question asks for the deletion of
/// exactly that question, a `DELETE` of `question/<uuid>`, and a deletion is
/// asked for by nothing else; a question is put back into the bucket only
/// when that very question is asked to go back, never when one is
/// discarded.
pub proof fn lemma_discard_deletes_the_question(
    pre: BucketLobby,
    msg: BucketLobbyMsg,
    post: BucketLobby,
    r: (bool, Option<BucketRequest>),
)
    requires
        BucketLobby::updated(pre, msg, post, r),
    ensures
        msg is DiscardQuestion ==> match pre.active_question {
            Loadable::Loaded(u) => r.1 matches Some(q) && q == BucketRequest::DeleteQuestion {
                question_uuid: u.inner().question_data.uuid,
            } && q.spec_path() == "question/"@ + uuid_text(u.inner().question_data.uuid.value),
            _ => r.1 is None,
        },
        r.1 matches Some(BucketRequest::DeleteQuestion { question_uuid }) ==> (msg is DiscardQuestion
            && (pre.active_question matches Loadable::Loaded(u) && u.inner().question_data.uuid
            == question_uuid)),
        r.1 matches Some(BucketRequest::PutQuestionBackInBucket { question_uuid }) ==> (
        msg matches BucketLobbyMsg::PutOldQuestionBackInBucket { question_uuid: q } && q
            == question_uuid),
{
}

} // verus!
