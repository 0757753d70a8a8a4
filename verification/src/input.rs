//! The state of a text input together with its validation, and the way an
//! input field reacts to what the user does.

use vstd::prelude::*;
use vstd::std_specs::cmp::PartialEqSpecImpl;

verus! {

/// The text of an input field and how far it has been checked.
#[derive(Debug)]
pub enum InputState {
    /// Text not checked yet, but not known to be wrong.
    Unvalidated { text: String },
    /// Text that the validator accepted.
    Validated { text: String },
    /// Text that the validator refused, with the reason.
    Error { text: String, error_text: String },
}

impl Clone for InputState {
    fn clone(&self) -> (r: Self)
        ensures
            r == *self,
    {
        match self {
            InputState::Unvalidated { text } => InputState::Unvalidated { text: text.clone() },
            InputState::Validated { text } => InputState::Validated { text: text.clone() },
            InputState::Error { text, error_text } => InputState::Error {
                text: text.clone(),
                error_text: error_text.clone(),
            },
        }
    }
}

/// Two input states have the same variant and the same texts.
pub open spec fn same_input_state(a: InputState, b: InputState) -> bool {
    match (a, b) {
        (InputState::Unvalidated { text: x }, InputState::Unvalidated { text: y }) => x@ == y@,
        (InputState::Validated { text: x }, InputState::Validated { text: y }) => x@ == y@,
        (
            InputState::Error { text: x, error_text: e },
            InputState::Error { text: y, error_text: f },
        ) => x@ == y@ && e@ == f@,
        _ => false,
    }
}

impl PartialEq for InputState {
    fn eq(&self, other: &Self) -> (r: bool) {
        match (self, other) {
            (InputState::Unvalidated { text: x }, InputState::Unvalidated { text: y }) => x.eq(y),
            (InputState::Validated { text: x }, InputState::Validated { text: y }) => x.eq(y),
            (
                InputState::Error { text: x, error_text: e },
                InputState::Error { text: y, error_text: f },
            ) => x.eq(y) && e.eq(f),
            _ => false,
        }
    }
}

impl PartialEqSpecImpl for InputState {
    open spec fn obeys_eq_spec() -> bool {
        true
    }

    open spec fn eq_spec(&self, other: &Self) -> bool {
        same_input_state(*self, *other)
    }
}

/// A field nobody has typed in yet: unchecked and empty.
pub open spec fn is_blank_input(s: InputState) -> bool {
    s matches InputState::Unvalidated { text } && text@ == Seq::<char>::empty()
}

impl Default for InputState {
    fn default() -> (r: Self)
        ensures
            is_blank_input(r),
    {
        InputState::Unvalidated { text: String::new() }
    }
}

impl InputState {
    /// The text, whatever the state.
    pub open spec fn text(self) -> String {
        match self {
            InputState::Unvalidated { text } => text,
            InputState::Validated { text } => text,
            InputState::Error { text, .. } => text,
        }
    }

    /// Runs `validation_fn` on `text`: an accepted text (as the validator
    /// returns it) is validated, a refused one keeps `text` with the reason.
    pub fn validate<F: Fn(String) -> Result<String, String>>(text: String, validation_fn: F) -> (r:
        InputState)
        requires
            call_requires(validation_fn, (text,)),
        ensures
            exists|res: Result<String, String>|
                call_ensures(validation_fn, (text,), res) && match res {
                    Ok(validated_text) => r == InputState::Validated { text: validated_text },
                    Err(error_text) => r == InputState::Error { text, error_text },
                },
    {
        match validation_fn(text.clone()) {
            Ok(validated_text) => InputState::Validated { text: validated_text },
            Err(error_text) => InputState::Error { text, error_text },
        }
    }

    /// The same state holding `text`.
    pub open spec fn with_text(self, text: String) -> InputState {
        match self {
            InputState::Unvalidated { .. } => InputState::Unvalidated { text },
            InputState::Validated { .. } => InputState::Validated { text },
            InputState::Error { error_text, .. } => InputState::Error { text, error_text },
        }
    }

    /// Replaces the text and keeps the state (and an error's reason).
    pub fn set_text(&mut self, text: String)
        ensures
            *final(self) == old(self).with_text(text),
    {
        let new_state = match self {
            InputState::Unvalidated { .. } => InputState::Unvalidated { text },
            InputState::Validated { .. } => InputState::Validated { text },
            InputState::Error { error_text, .. } => InputState::Error {
                text,
                error_text: error_text.clone(),
            },
        };
        *self = new_state;
    }

    /// A copy of the text.
    pub fn inner_text(&self) -> (r: String)
        ensures
            r == self.text(),
    {
        match self {
            InputState::Unvalidated { text } => text.clone(),
            InputState::Validated { text } => text.clone(),
            InputState::Error { text, .. } => text.clone(),
        }
    }

    /// The reason the text was refused, if it was.
    pub open spec fn error_text_spec(self) -> Option<String> {
        match self {
            InputState::Error { error_text, .. } => Some(error_text),
            _ => None,
        }
    }

    /// The reason the text was refused, if it was.
    pub fn error_text(&self) -> (r: Option<&String>)
        ensures
            match *self {
                InputState::Error { error_text, .. } => r == Some(&error_text),
                _ => r is None,
            },
    {
        match self {
            InputState::Error { error_text, .. } => Some(error_text),
            _ => None,
        }
    }
}

/// Setting a field's text and reading it back gives that text, and the
/// field keeps whether it was checked (and why it was refused).
pub proof fn lemma_set_text_then_read(s: InputState, text: String)
    ensures
        s.with_text(text).text() == text,
        s.with_text(text).error_text_spec() == s.error_text_spec(),
        (s.with_text(text) is Validated) == (s is Validated),
        (s.with_text(text) is Unvalidated) == (s is Unvalidated),
{
}

/// What the user does to an input field.
#[derive(Debug)]
pub enum InputMsg {
    /// The text was edited.
    UpdateText(String),
    /// The enter key was pressed.
    EnterPressed,
    /// The field lost focus.
    Validate,
    NoOp,
}

/// What an input field reports to its owner.
#[derive(Debug)]
pub enum InputEvent {
    /// The new state of the input, for the owner to store.
    Changed(InputState),
    /// The enter key was pressed.
    Entered,
    /// Nothing to report.
    Nothing,
}

/// What an input field holding `state` reports to its owner on `msg`: an
/// edit of a refused text is validated at once, any other edit only replaces
/// the text; losing focus validates the text. The field itself is never
/// drawn again on a message (`r.1` is false): it waits for its owner to hand
/// the new state back.
pub open spec fn input_answer<F: Fn(String) -> Result<String, String>>(
    state: InputState,
    msg: InputMsg,
    validator: F,
    r: InputEvent,
) -> bool {
    match msg {
        InputMsg::UpdateText(new_text) => match state {
            InputState::Error { .. } => r matches InputEvent::Changed(s) && exists|
                res: Result<String, String>,
            |
                call_ensures(validator, (new_text,), res) && match res {
                    Ok(v) => s == InputState::Validated { text: v },
                    Err(e) => s == InputState::Error { text: new_text, error_text: e },
                },
            InputState::Unvalidated { .. } => r == InputEvent::Changed(
                InputState::Unvalidated { text: new_text },
            ),
            InputState::Validated { .. } => r == InputEvent::Changed(
                InputState::Validated { text: new_text },
            ),
        },
        InputMsg::EnterPressed => r is Entered,
        InputMsg::Validate => r matches InputEvent::Changed(s) && exists|
            res: Result<String, String>,
        |
            call_ensures(validator, (state.text(),), res) && match res {
                Ok(v) => s == InputState::Validated { text: v },
                Err(e) => s == InputState::Error { text: state.text(), error_text: e },
            },
        InputMsg::NoOp => r is Nothing,
    }
}

/// How an input field holding `state` answers `msg`: what it reports to its
/// owner (see `input_answer`) and whether it is drawn again, which it never is.
pub fn input_update<F: Fn(String) -> Result<String, String>>(
    state: &InputState,
    msg: InputMsg,
    validator: F,
) -> (r: (InputEvent, bool))
    requires
        forall|s: String| call_requires(validator, (s,)),
    ensures
        input_answer(*state, msg, validator, r.0),
        !r.1,
{
    let event = match msg {
        InputMsg::UpdateText(new_text) => {
            if let InputState::Error { .. } = state {
                InputEvent::Changed(InputState::validate(new_text, validator))
            } else {
                let mut is = state.clone();
                is.set_text(new_text);
                InputEvent::Changed(is)
            }
        },
        InputMsg::EnterPressed => InputEvent::Entered,
        InputMsg::Validate => InputEvent::Changed(
            InputState::validate(state.inner_text(), validator),
        ),
        InputMsg::NoOp => InputEvent::Nothing,
    };
    (event, false)
}

} // verus!
