//! Creating an account: the checks on the form's fields, the record that
//! is sent, and how the form reacts to what the user and the server do.

use vstd::prelude::*;
use crate::fetch::FetchResponse;
use crate::input::{is_blank_input, same_input_state, InputState};
use crate::loadable::Uploadable;
use crate::requests::{AuthRequest, NewUserRequest};

verus! {

/// The length of a text in bytes, as UTF-8.
pub open spec fn byte_len(s: Seq<char>) -> nat {
    vstd::utf8::encode_utf8(s).len()
}

/// A user name needs at least 5 bytes.
pub fn validate_user_name(user_name: String) -> (r: Result<String, String>)
    ensures
        byte_len(user_name@) < 5 ==> (r matches Err(e) && e@
            == "User Name must be 5 or more characters."@),
        byte_len(user_name@) >= 5 ==> r == Ok::<String, String>(user_name),
{
    if user_name.as_str().as_bytes().len() < 5 {
        return Err(String::from_str("User Name must be 5 or more characters."));
    }
    Ok(user_name)
}

/// A display name needs at least 5 bytes.
pub fn validate_display_name(display_name: String) -> (r: Result<String, String>)
    ensures
        byte_len(display_name@) < 5 ==> (r matches Err(e) && e@
            == "Display Name must be 5 or more characters."@),
        byte_len(display_name@) >= 5 ==> r == Ok::<String, String>(display_name),
{
    if display_name.as_str().as_bytes().len() < 5 {
        return Err(String::from_str("Display Name must be 5 or more characters."));
    }
    Ok(display_name)
}

/// A password needs at least 8 bytes.
pub fn validate_password(password: String) -> (r: Result<String, String>)
    ensures
        byte_len(password@) < 8 ==> (r matches Err(e) && e@
            == "Password must be 8 or more characters."@),
        byte_len(password@) >= 8 ==> r == Ok::<String, String>(password),
{
    if password.as_str().as_bytes().len() < 8 {
        return Err(String::from_str("Password must be 8 or more characters."));
    }
    Ok(password)
}

/// The fields of the form that creates an account.
#[derive(Debug)]
pub struct CreateAccountData {
    pub user_name: InputState,
    pub display_name: InputState,
    pub password: InputState,
    pub confirm_password: InputState,
}

impl Clone for CreateAccountData {
    fn clone(&self) -> (r: Self)
        ensures
            r == *self,
    {
        CreateAccountData {
            user_name: self.user_name.clone(),
            display_name: self.display_name.clone(),
            password: self.password.clone(),
            confirm_password: self.confirm_password.clone(),
        }
    }
}

impl Default for CreateAccountData {
    fn default() -> (r: Self)
        ensures
            is_blank_input(r.user_name),
            is_blank_input(r.display_name),
            is_blank_input(r.password),
            is_blank_input(r.confirm_password),
    {
        CreateAccountData {
            user_name: InputState::default(),
            display_name: InputState::default(),
            password: InputState::default(),
            confirm_password: InputState::default(),
        }
    }
}

/// The reason the form is refused when the two passwords differ.
pub open spec fn password_mismatch_message() -> Seq<char> {
    "Passwords do not match"@
}

impl CreateAccountData {
    /// The request that creates the account; refused when the password and
    /// its confirmation are not the same input state.
    pub fn validate(&self) -> (r: Result<NewUserRequest, String>)
        ensures
            !same_input_state(self.confirm_password, self.password) ==> (r matches Err(e) && e@
                == password_mismatch_message()),
            same_input_state(self.confirm_password, self.password) ==> (r matches Ok(req)
                && req.user_name == self.user_name.text() && req.display_name
                == self.display_name.text() && req.plaintext_password == self.password.text()),
    {
        if self.confirm_password != self.password {
            return Err(String::from_str("Passwords do not match"));
        }
        Ok(
            NewUserRequest {
                user_name: self.user_name.inner_text(),
                display_name: self.display_name.inner_text(),
                plaintext_password: self.password.inner_text(),
            },
        )
    }
}

/// What the account form reacts to.
#[derive(Debug)]
pub enum CreateAccountMsg {
    UpdatePassword(InputState),
    UpdateConfirmPassword(InputState),
    UpdateUserName(InputState),
    UpdateDisplayName(InputState),
    Submit,
    NavigateToLogin,
    AccountCreationFailed,
    RequestStarted,
    NoOp,
}

impl Default for CreateAccountMsg {
    fn default() -> (r: Self)
        ensures
            r is NoOp,
    {
        CreateAccountMsg::NoOp
    }
}

/// The form that creates an account.
#[derive(Debug)]
pub struct CreateAccount {
    pub data: Uploadable<CreateAccountData>,
}

/// The reason shown when the server refuses the account.
pub open spec fn account_creation_failed_message() -> Seq<char> {
    "Could not create account."@
}

impl CreateAccount {
    /// An empty form that has not been sent.
    pub fn create() -> (r: CreateAccount)
        ensures
            r.data matches Uploadable::NotUploaded(d) && is_blank_input(d.user_name)
                && is_blank_input(d.display_name) && is_blank_input(d.password) && is_blank_input(
                d.confirm_password,
            ),
    {
        CreateAccount { data: Uploadable::NotUploaded(CreateAccountData::default()) }
    }

    /// The message that the answer to the account request becomes.
    pub fn response_mapper(fetch_response: FetchResponse<()>) -> (r: CreateAccountMsg)
        ensures
            match fetch_response {
                FetchResponse::Started => r is RequestStarted,
                FetchResponse::Success(_) => r is NavigateToLogin,
                FetchResponse::Error(_) => r is AccountCreationFailed,
            },
    {
        match fetch_response {
            FetchResponse::Started => CreateAccountMsg::RequestStarted,
            FetchResponse::Success(_) => CreateAccountMsg::NavigateToLogin,
            FetchResponse::Error(_) => CreateAccountMsg::AccountCreationFailed,
        }
    }

    /// How the form changes on `msg`, whether it is drawn again (`r.0`),
    /// and the request that is sent (`r.1`).
    pub open spec fn updated(
        pre: CreateAccount,
        msg: CreateAccountMsg,
        post: CreateAccount,
        r: (bool, Option<AuthRequest>),
    ) -> bool {
        let d = pre.data.inner();
        match msg {
            CreateAccountMsg::Submit => {
                &&& r.0
                &&& if same_input_state(d.confirm_password, d.password) {
                    &&& post == pre
                    &&& r.1 matches Some(AuthRequest::CreateUser(req))
                    &&& req.user_name == d.user_name.text()
                    &&& req.display_name == d.display_name.text()
                    &&& req.plaintext_password == d.password.text()
                } else {
                    &&& r.1 is None
                    &&& post.data matches Uploadable::Failed(t, m)
                    &&& t == d
                    &&& m@ == password_mismatch_message()
                }
            },
            CreateAccountMsg::UpdatePassword(p) => {
                &&& r == (true, None::<AuthRequest>)
                &&& post.data == pre.data.with_inner(CreateAccountData { password: p, ..d })
            },
            CreateAccountMsg::UpdateConfirmPassword(p) => {
                &&& r == (true, None::<AuthRequest>)
                &&& post.data == pre.data.with_inner(
                    CreateAccountData { confirm_password: p, ..d },
                )
            },
            CreateAccountMsg::UpdateUserName(u) => {
                &&& r == (true, None::<AuthRequest>)
                &&& post.data == pre.data.with_inner(CreateAccountData { user_name: u, ..d })
            },
            CreateAccountMsg::UpdateDisplayName(u) => {
                &&& r == (true, None::<AuthRequest>)
                &&& post.data == pre.data.with_inner(CreateAccountData { display_name: u, ..d })
            },
            CreateAccountMsg::NavigateToLogin => r == (false, None::<AuthRequest>) && post == pre,
            CreateAccountMsg::AccountCreationFailed => {
                &&& r == (true, None::<AuthRequest>)
                &&& post.data matches Uploadable::Failed(t, m)
                &&& t == d
                &&& m@ == account_creation_failed_message()
            },
            CreateAccountMsg::RequestStarted => {
                &&& r == (true, None::<AuthRequest>)
                &&& post.data == Uploadable::Uploading(d)
            },
            CreateAccountMsg::NoOp => r == (false, None::<AuthRequest>) && post == pre,
        }
    }

    /// Reacts to `msg`: a submitted form whose passwords match is sent as an
    /// account request, one whose passwords differ fails with the reason;
    /// field updates replace the field; the server's refusal fails the form.
    pub fn update(&mut self, msg: CreateAccountMsg) -> (r: (bool, Option<AuthRequest>))
        ensures
            Self::updated(*old(self), msg, *final(self), r),
    {
        match msg {
            CreateAccountMsg::Submit => {
                match self.data.as_ref().validate() {
                    Ok(new_user_request) => (true, Some(AuthRequest::CreateUser(new_user_request))),
                    Err(err_msg) => {
                        self.data.set_failed(err_msg.as_str());
                        (true, None)
                    },
                }
            },
            CreateAccountMsg::UpdatePassword(p) => {
                self.data.as_mut().password = p;
                (true, None)
            },
            CreateAccountMsg::UpdateConfirmPassword(p) => {
                self.data.as_mut().confirm_password = p;
                (true, None)
            },
            CreateAccountMsg::UpdateUserName(u) => {
                self.data.as_mut().user_name = u;
                (true, None)
            },
            CreateAccountMsg::UpdateDisplayName(u) => {
                self.data.as_mut().display_name = u;
                (true, None)
            },
            CreateAccountMsg::NavigateToLogin => (false, None),
            CreateAccountMsg::AccountCreationFailed => {
                self.data.set_failed("Could not create account.");
                (true, None)
            },
            CreateAccountMsg::RequestStarted => {
                self.data.set_uploading();
                (true, None)
            },
            CreateAccountMsg::NoOp => (false, None),
        }
    }
}

} // verus!
