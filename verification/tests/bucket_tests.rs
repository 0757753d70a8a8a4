use frontend::bucket::{
    return_question_to_bucket, validate_new_question, without_question, BucketLobby, BucketLobbyMsg, QuestionPackage,
};
use frontend::bucket_model::{
    BucketCommand, BucketManagement, BucketManagementMsg, BucketModel, BucketModelMsg, BucketPage, BucketParticipants,
    BucketParticipantsMsg, BucketRoute, DropDownPaneVariant, NewBucket, Publicity,
};
use frontend::datatypes::{BucketData, QuestionData, QuestionLocation, UserData};
use frontend::fetch::{FetchError, FetchResponse};
use frontend::ids::Uuid;
use frontend::input::InputState;
use frontend::loadable::{Loadable, Uploadable};
use frontend::requests::BucketRequest;

const B: u128 = 0x67e55044_10b1_426f_9247_bb680e5fe0c8;

fn bucket() -> BucketData {
    BucketData { uuid: Uuid { value: B }, bucket_name: "Party".to_string(), is_public: true }
}

fn user(v: u128) -> UserData {
    UserData { user_name: "u".to_string(), display_name: "U".to_string(), uuid: Uuid { value: v } }
}

fn question(v: u128, location: QuestionLocation) -> QuestionData {
    QuestionData {
        uuid: Uuid { value: v },
        bucket_uuid: Uuid { value: B },
        question_text: format!("q{}", v),
        author: user(1),
        answers: vec![],
        location,
    }
}

#[test]
fn new_question_needs_text() {
    assert_eq!(validate_new_question(String::new()), Err("New question must contain some text".to_string()));
    assert_eq!(validate_new_question("Why?".to_string()), Ok("Why?".to_string()));
}

#[test]
fn returning_and_discarding_questions() {
    let mut list = vec![question(1, QuestionLocation::Floor), question(2, QuestionLocation::Floor)];
    return_question_to_bucket(&mut list, Uuid { value: 2 });
    assert_eq!(list[0].location, QuestionLocation::Floor);
    assert_eq!(list[1].location, QuestionLocation::Bucket);
    let rest = without_question(list, Uuid { value: 1 });
    assert_eq!(rest.len(), 1);
    assert_eq!(rest[0].uuid, Uuid { value: 2 });
    assert_eq!(QuestionLocation::from_on_floor(true), QuestionLocation::Floor);
    assert_eq!(QuestionLocation::from_on_floor(false), QuestionLocation::Bucket);
}

#[test]
fn lobby_draws_and_answers() {
    let (mut lobby, request) = BucketLobby::create(bucket());
    assert!(matches!(request, BucketRequest::GetQuestions { bucket_uuid } if bucket_uuid == Uuid { value: B }));
    let (render, request) = lobby.update(BucketLobbyMsg::DrawRandomQuestion);
    assert!(render);
    assert!(matches!(request, Some(BucketRequest::GetRandomQuestion { .. })));
    let package = QuestionPackage { question_data: question(5, QuestionLocation::Floor), answer: InputState::default() };
    lobby.update(BucketLobbyMsg::HandleDrawRandomQuestionResponse(FetchResponse::Success(Uploadable::NotUploaded(package))));
    // An empty answer is sent as no text.
    match lobby.update(BucketLobbyMsg::SubmitAnswer).1 {
        Some(BucketRequest::AnswerQuestion(r)) => {
            assert_eq!(r.question_uuid, Uuid { value: 5 });
            assert_eq!(r.answer_text, None);
        }
        _ => panic!("expected an answer"),
    }
    lobby.update(BucketLobbyMsg::UpdateAnswer(InputState::Validated { text: "Because".to_string() }));
    match lobby.update(BucketLobbyMsg::SubmitAnswer).1 {
        Some(BucketRequest::AnswerQuestion(r)) => assert_eq!(r.answer_text, Some("Because".to_string())),
        _ => panic!("expected an answer"),
    }
    lobby.update(BucketLobbyMsg::HandleSubmitAnswerResponse(FetchResponse::Error(FetchError::Misc)));
    assert!(matches!(lobby.active_question, Loadable::Loaded(Uploadable::Failed(_, ref m)) if m == "failed to submit Answer"));
    let (_, request) = lobby.update(BucketLobbyMsg::HandleSubmitAnswerResponse(FetchResponse::Success(())));
    assert!(matches!(request, Some(BucketRequest::GetQuestions { .. })));
    assert!(matches!(lobby.active_question, Loadable::Unloaded));
    match lobby.update(BucketLobbyMsg::DiscardQuestion) {
        (true, None) => {}
        _ => panic!("nothing to discard"),
    }
    assert!(!lobby.update(BucketLobbyMsg::NoOp).0);
}

#[test]
fn lobby_new_questions_and_prior_list() {
    let (mut lobby, _) = BucketLobby::create(bucket());
    lobby.update(BucketLobbyMsg::UpdateNewQuestion(InputState::Validated { text: "New?".to_string() }));
    match lobby.update(BucketLobbyMsg::SubmitNewQuestion).1 {
        Some(BucketRequest::CreateQuestion(r)) => {
            assert_eq!(r.question_text, "New?");
            assert_eq!(r.bucket_uuid, Uuid { value: B });
        }
        _ => panic!("expected a question"),
    }
    lobby.update(BucketLobbyMsg::HandleSubmitNewQuestionResponse(FetchResponse::Error(FetchError::Misc)));
    assert!(matches!(lobby.new_question, Uploadable::Failed(_, ref m) if m == "failed to submit question"));
    lobby.update(BucketLobbyMsg::HandleSubmitNewQuestionResponse(FetchResponse::Success(())));
    assert!(matches!(lobby.new_question, Uploadable::NotUploaded(ref n) if n.question_text == InputState::default()));
    lobby.update(BucketLobbyMsg::HandlePriorQuestionResponse(FetchResponse::Error(FetchError::Misc)));
    assert!(matches!(lobby.prior_questions_and_answers, Loadable::Failed(Some(ref m)) if m == "Could not load old questions"));
    lobby.update(BucketLobbyMsg::HandlePriorQuestionResponse(FetchResponse::Success(vec![
        question(1, QuestionLocation::Floor),
        question(2, QuestionLocation::Floor),
    ])));
    lobby.update(BucketLobbyMsg::SetListFilter(QuestionLocation::Bucket));
    lobby.update(BucketLobbyMsg::HandlePutOldQuestionBackInBucketResponse(FetchResponse::Success(Uuid { value: 1 })));
    lobby.update(BucketLobbyMsg::HandleDiscardQuestionResponse(FetchResponse::Success(Uuid { value: 2 })));
    match &lobby.prior_questions_and_answers {
        Loadable::Loaded(l) => {
            assert_eq!(l.filter, QuestionLocation::Bucket);
            assert_eq!(l.list.len(), 1);
            assert_eq!(l.list[0].location, QuestionLocation::Bucket);
        }
        _ => panic!("expected a list"),
    }
    let (_, request) = lobby.update(BucketLobbyMsg::PutOldQuestionBackInBucket { question_uuid: Uuid { value: 1 } });
    assert!(matches!(request, Some(BucketRequest::PutQuestionBackInBucket { .. })));
}

#[test]
fn bucket_page_routes() {
    let (model, commands) = BucketModel::create(BucketRoute::BucketList);
    assert_eq!(model.drop_down_state, DropDownPaneVariant::Closed);
    assert_eq!(commands.len(), 2);
    assert!(matches!(commands[0], BucketCommand::Fetch(BucketRequest::GetPublicBuckets)));
    assert!(matches!(commands[1], BucketCommand::Fetch(BucketRequest::GetBucketsForUser)));
    let (mut model, commands) = BucketModel::create(BucketRoute::Create);
    assert!(commands.is_empty());
    assert!(matches!(model.bucket_page, BucketPage::Create(_)));
    let (_, command) = model.update(BucketModelMsg::NavigateToBucket { bucket_uuid: Uuid { value: B } });
    assert!(matches!(command, Some(BucketCommand::ChangeRoute(ref p)) if p == "bucket/67e55044-10b1-426f-9247-bb680e5fe0c8"));
    let (_, command) = model.update(BucketModelMsg::NavigateToCreateBucket);
    assert!(matches!(command, Some(BucketCommand::ChangeRoute(ref p)) if p == "bucket/create"));
    let (_, command) = model.update(BucketModelMsg::CreateBucket);
    assert!(command.is_none());
    model.update(BucketModelMsg::UpdateBucketName(InputState::Validated { text: "Trip".to_string() }));
    match model.update(BucketModelMsg::CreateBucket).1 {
        Some(BucketCommand::Fetch(BucketRequest::CreateBucket(r))) => {
            assert_eq!(r.bucket_name, "Trip");
            assert!(r.is_public);
        }
        _ => panic!("expected a bucket request"),
    }
    model.update(BucketModelMsg::ChangeDropDownState(DropDownPaneVariant::ManageBuckets));
    assert_eq!(model.drop_down_state, DropDownPaneVariant::ManageBuckets);
    let (render, commands) = model.change(BucketRoute::Bucket { bucket_uuid: Uuid { value: B } });
    assert!(render);
    assert!(matches!(commands[0], BucketCommand::Fetch(BucketRequest::GetBucket { .. })));
    let empty = NewBucket::default();
    assert_eq!(empty.validate().err(), Some("Bucket Name must have some text.".to_string()));
}

#[test]
fn management_requests() {
    let (mut pane, request) = BucketManagement::create();
    assert!(matches!(request, BucketRequest::GetUnapprovedUsersForOwnedBuckets));
    let (_, request) = pane.update(BucketManagementMsg::SetPublicOrPrivate {
        bucket_uuid: Uuid { value: B },
        publicity: Publicity::Private,
    });
    assert!(matches!(request, Some(BucketRequest::SetBucketPublicStatus { is_public: false, .. })));
    let (_, request) = pane.update(BucketManagementMsg::GrantUserAccessToBucket {
        user_uuid: Uuid { value: 3 },
        bucket_uuid: Uuid { value: B },
    });
    assert!(matches!(request, Some(BucketRequest::ApproveUserForBucket { .. })));
    let (_, request) = pane.update(BucketManagementMsg::HandleGrantUserAccessResponse(FetchResponse::Success(())));
    assert!(matches!(request, Some(BucketRequest::GetUnapprovedUsersForOwnedBuckets)));
}

#[test]
fn participants_pane() {
    let (mut pane, requests) = BucketParticipants::create(&Loadable::Loaded(bucket()));
    assert_eq!(requests.len(), 2);
    assert!(matches!(requests[0], BucketRequest::GetUsersInBucket { .. }));
    assert!(matches!(requests[1], BucketRequest::GetIsUserOwnerOfBucket { .. }));
    let (_, none) = BucketParticipants::create(&Loadable::Loading);
    assert!(none.is_empty());
    pane.update(BucketParticipantsMsg::HandleGetBucketUserDataResponse(FetchResponse::Success(vec![user(3)])));
    assert!(matches!(pane.users, Loadable::Loaded(ref u) if u.len() == 1));
    let (_, request) = pane.update(BucketParticipantsMsg::RemoveUserFromBucket { user_uuid: Uuid { value: 3 } });
    assert!(matches!(request, Some(BucketRequest::RemoveUserFromBucket { .. })));
}
