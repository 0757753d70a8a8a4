use frontend::auth::{
    validate_display_name, validate_password, validate_user_name, CreateAccount, CreateAccountData, CreateAccountMsg,
};
use frontend::fetch::{FetchError, FetchResponse};
use frontend::input::InputState;
use frontend::loadable::Uploadable;
use frontend::requests::AuthRequest;

fn typed(s: &str) -> InputState {
    InputState::Validated { text: s.to_string() }
}

#[test]
fn field_validators_count_bytes() {
    assert_eq!(validate_user_name("abcd".to_string()), Err("User Name must be 5 or more characters.".to_string()));
    assert_eq!(validate_user_name("abcde".to_string()), Ok("abcde".to_string()));
    // Two two-byte characters and one ASCII letter make five bytes.
    assert_eq!(validate_user_name("ééa".to_string()), Ok("ééa".to_string()));
    assert_eq!(validate_display_name("".to_string()), Err("Display Name must be 5 or more characters.".to_string()));
    assert_eq!(validate_display_name("Jo Ann".to_string()), Ok("Jo Ann".to_string()));
    assert_eq!(validate_password("1234567".to_string()), Err("Password must be 8 or more characters.".to_string()));
    assert_eq!(validate_password("12345678".to_string()), Ok("12345678".to_string()));
}

#[test]
fn account_data_needs_matching_passwords() {
    let mut data = CreateAccountData::default();
    data.user_name = typed("user1");
    data.display_name = typed("User One");
    data.password = typed("secret99");
    data.confirm_password = typed("secret98");
    assert_eq!(data.validate().err(), Some("Passwords do not match".to_string()));
    data.confirm_password = typed("secret99");
    let request = data.validate().expect("matching passwords");
    assert_eq!(request.user_name, "user1");
    assert_eq!(request.display_name, "User One");
    assert_eq!(request.plaintext_password, "secret99");
    // The same text in another state does not match.
    data.confirm_password = InputState::Unvalidated { text: "secret99".to_string() };
    assert!(data.validate().is_err());
}

#[test]
fn account_form_flow() {
    let mut form = CreateAccount::create();
    assert_eq!(form.update(CreateAccountMsg::UpdateUserName(typed("user1"))).0, true);
    form.update(CreateAccountMsg::UpdateDisplayName(typed("User One")));
    form.update(CreateAccountMsg::UpdatePassword(typed("secret99")));
    form.update(CreateAccountMsg::UpdateConfirmPassword(typed("secret99")));
    let (render, request) = form.update(CreateAccountMsg::Submit);
    assert!(render);
    match request {
        Some(AuthRequest::CreateUser(r)) => assert_eq!(r.user_name, "user1"),
        _ => panic!("expected an account request"),
    }
    let (render, request) = form.update(CreateAccount::response_mapper(FetchResponse::Started));
    assert!(render && request.is_none());
    assert!(matches!(form.data, Uploadable::Uploading(_)));
    form.update(CreateAccount::response_mapper(FetchResponse::Error(FetchError::BadRequest)));
    match &form.data {
        Uploadable::Failed(d, m) => {
            assert_eq!(m, "Could not create account.");
            assert_eq!(d.user_name, typed("user1"));
        }
        _ => panic!("expected a failure"),
    }
    let (render, _) = form.update(CreateAccount::response_mapper(FetchResponse::Success(())));
    assert!(!render);
    assert!(!form.update(CreateAccountMsg::NoOp).0);
}

#[test]
fn mismatched_submit_fails_the_form() {
    let mut form = CreateAccount::create();
    form.update(CreateAccountMsg::UpdatePassword(typed("secret99")));
    let (render, request) = form.update(CreateAccountMsg::Submit);
    assert!(render);
    assert!(request.is_none());
    assert!(matches!(form.data, Uploadable::Failed(_, ref m) if m == "Passwords do not match"));
}
