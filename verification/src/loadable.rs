//! Wrappers that track a value's round trip over the network: `Loadable`
//! for values being fetched, `Uploadable` for values being sent.

use vstd::prelude::*;
use vstd::std_specs::cmp::{PartialEqSpec, PartialEqSpecImpl};
use crate::fetch::FetchResponse;

verus! {

/// A value that is fetched from the server.
#[derive(Debug)]
pub enum Loadable<T> {
    Unloaded,
    Loading,
    Loaded(T),
    Failed(Option<String>),
}

/// Two optional messages hold the same text.
pub open spec fn same_message(a: Option<String>, b: Option<String>) -> bool {
    match (a, b) {
        (None, None) => true,
        (Some(x), Some(y)) => x@ == y@,
        _ => false,
    }
}

fn messages_equal(a: &Option<String>, b: &Option<String>) -> (r: bool)
    ensures
        r == same_message(*a, *b),
{
    match (a, b) {
        (None, None) => true,
        (Some(x), Some(y)) => x.eq(y),
        _ => false,
    }
}

impl<T: PartialEq> PartialEq for Loadable<T> {
    fn eq(&self, other: &Self) -> (r: bool) {
        match self {
            Loadable::Unloaded => {
                if let Loadable::Unloaded = other {
                    true
                } else {
                    false
                }
            },
            Loadable::Loading => true,
            Loadable::Loaded(t) => {
                if let Loadable::Loaded(t_other) = other {
                    t == t_other
                } else {
                    false
                }
            },
            Loadable::Failed(f) => {
                if let Loadable::Failed(f_other) = other {
                    messages_equal(f, f_other)
                } else {
                    false
                }
            },
        }
    }
}

impl<T: PartialEq> PartialEqSpecImpl for Loadable<T> {
    open spec fn obeys_eq_spec() -> bool {
        <T as PartialEqSpec>::obeys_eq_spec()
    }

    /// A loading value equals anything; otherwise the variants and their
    /// contents must agree.
    open spec fn eq_spec(&self, other: &Self) -> bool {
        match (self, other) {
            (Loadable::Loading, _) => true,
            (Loadable::Unloaded, Loadable::Unloaded) => true,
            (Loadable::Loaded(t), Loadable::Loaded(u)) => PartialEqSpec::eq_spec(t, u),
            (Loadable::Failed(f), Loadable::Failed(g)) => same_message(*f, *g),
            _ => false,
        }
    }
}

/// A value being loaded is taken to equal any other loadable, so a view
/// that shows it is not redrawn while the load goes on.
pub proof fn lemma_loading_equals_anything<T: PartialEq>(other: Loadable<T>)
    ensures
        PartialEqSpec::eq_spec(&Loadable::<T>::Loading, &other),
{
}

impl<T: Clone> Clone for Loadable<T> {
    fn clone(&self) -> (r: Self)
        ensures
            match (*self, r) {
                (Loadable::Unloaded, Loadable::Unloaded) => true,
                (Loadable::Loading, Loadable::Loading) => true,
                (Loadable::Loaded(t), Loadable::Loaded(u)) => cloned(t, u),
                (Loadable::Failed(f), Loadable::Failed(g)) => same_message(f, g),
                _ => false,
            },
    {
        match self {
            Loadable::Unloaded => Loadable::Unloaded,
            Loadable::Loading => Loadable::Loading,
            Loadable::Loaded(t) => Loadable::Loaded(t.clone()),
            Loadable::Failed(o) => Loadable::Failed(
                match o {
                    Some(m) => Some(m.clone()),
                    None => None,
                },
            ),
        }
    }
}

impl<T> Default for Loadable<T> {
    fn default() -> (r: Self)
        ensures
            r is Unloaded,
    {
        Loadable::Unloaded
    }
}

impl<T> Loadable<T> {
    /// The loadable that a fetch response leads to: a success is loaded, an
    /// error is a failure without a message, a started request is loading.
    pub fn from_fetch_response(fetch_response: FetchResponse<T>) -> (r: Loadable<T>)
        ensures
            match fetch_response {
                FetchResponse::Success(t) => r == Loadable::Loaded(t),
                FetchResponse::Error(_) => r == Loadable::<T>::Failed(None),
                FetchResponse::Started => r == Loadable::<T>::Loading,
            },
    {
        match fetch_response {
            FetchResponse::Success(t) => Loadable::Loaded(t),
            FetchResponse::Error(_) => Loadable::Failed(None),
            FetchResponse::Started => Loadable::Loading,
        }
    }

    /// The loaded value, if there is one.
    pub fn as_option(&self) -> (r: Option<&T>)
        ensures
            r is Some <==> self is Loaded,
            r matches Some(t) ==> *self == Loadable::Loaded(*t),
    {
        if let Loadable::Loaded(value) = self {
            Some(value)
        } else {
            None
        }
    }
}

/// A value that is sent to the server.
#[derive(Debug)]
pub enum Uploadable<T> {
    NotUploaded(T),
    Uploading(T),
    Failed(T, String),
}

impl<T> Uploadable<T> {
    /// The wrapped value.
    pub open spec fn inner(self) -> T {
        match self {
            Uploadable::NotUploaded(t) => t,
            Uploadable::Uploading(t) => t,
            Uploadable::Failed(t, _) => t,
        }
    }

    /// The same state, wrapping `t` in place of its value.
    pub open spec fn with_inner(self, t: T) -> Uploadable<T> {
        match self {
            Uploadable::NotUploaded(_) => Uploadable::NotUploaded(t),
            Uploadable::Uploading(_) => Uploadable::Uploading(t),
            Uploadable::Failed(_, m) => Uploadable::Failed(t, m),
        }
    }

    /// The wrapped value.
    pub fn as_ref(&self) -> (r: &T)
        ensures
            *r == self.inner(),
    {
        match self {
            Uploadable::NotUploaded(t) => t,
            Uploadable::Uploading(t) => t,
            Uploadable::Failed(t, _) => t,
        }
    }

    /// The wrapped value, to change in place; the variant stays as it is.
    pub fn as_mut(&mut self) -> (r: &mut T)
        ensures
            *r == old(self).inner(),
            *final(self) == old(self).with_inner(*final(r)),
    {
        match self {
            Uploadable::NotUploaded(t) => t,
            Uploadable::Uploading(t) => t,
            Uploadable::Failed(t, _) => t,
        }
    }

    /// Takes the wrapper apart into its value.
    pub fn into_inner(self) -> (r: T)
        ensures
            r == self.inner(),
    {
        match self {
            Uploadable::NotUploaded(t) => t,
            Uploadable::Uploading(t) => t,
            Uploadable::Failed(t, _) => t,
        }
    }
}

impl<T: Default> Uploadable<T> {
    /// Moves to the state a fetch response leads to: a success replaces the
    /// value and is no longer uploading, an error keeps the value and fails
    /// with the message "Failed", a started request keeps it and uploads.
    pub fn handle_fetch_response(&mut self, fetch_response: FetchResponse<T>)
        ensures
            match fetch_response {
                FetchResponse::Success(t) => *final(self) == Uploadable::NotUploaded(t),
                FetchResponse::Error(_) => (*final(self)) matches Uploadable::Failed(t, m) && t
                    == old(self).inner() && m@ == "Failed"@,
                FetchResponse::Started => *final(self) == Uploadable::Uploading(
                    old(self).inner(),
                ),
            },
    {
        let mut current = Uploadable::NotUploaded(T::default());
        std::mem::swap(&mut current, self);
        let existing = current.into_inner();
        *self = match fetch_response {
            FetchResponse::Success(t) => Uploadable::NotUploaded(t),
            FetchResponse::Error(_) => Uploadable::Failed(existing, String::from_str("Failed")),
            FetchResponse::Started => Uploadable::Uploading(existing),
        };
        proof {
            reveal_strlit("Failed");
        }
    }

    /// Keeps the value and fails with `msg`.
    pub fn set_failed(&mut self, msg: &str)
        ensures
            (*final(self)) matches Uploadable::Failed(t, m) && t == old(self).inner() && m@ == msg@,
    {
        let mut current = Uploadable::NotUploaded(T::default());
        std::mem::swap(&mut current, self);
        *self = Uploadable::Failed(current.into_inner(), String::from_str(msg));
    }

    /// Keeps the value and marks it as being uploaded.
    pub fn set_uploading(&mut self)
        ensures
            *final(self) == Uploadable::Uploading(old(self).inner()),
    {
        let mut current = Uploadable::NotUploaded(T::default());
        std::mem::swap(&mut current, self);
        *self = Uploadable::Uploading(current.into_inner());
    }
}

impl<T: Clone> Uploadable<T> {
    /// A copy of the wrapped value.
    pub fn cloned_inner(&self) -> (r: T)
        ensures
            cloned(self.inner(), r),
    {
        self.as_ref().clone()
    }
}

} // verus!
