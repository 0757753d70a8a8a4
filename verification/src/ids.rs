//! Identifiers of the application's records (users, buckets, questions,
//! forums, threads, posts), and their text form.

use vstd::prelude::*;
use vstd::arithmetic::power::pow;

verus! {

/// A 128-bit universally unique identifier.
#[derive(Clone, Copy, Debug, PartialEq, Eq, Structural, PartialOrd, Ord, Default)]
pub struct Uuid {
    pub value: u128,
}

pub type UserUuid = Uuid;

pub type BucketUuid = Uuid;

pub type QuestionUuid = Uuid;

pub type AnswerUuid = Uuid;

pub type ForumUuid = Uuid;

pub type ThreadUuid = Uuid;

pub type PostUuid = Uuid;

/// The lowercase hexadecimal digit of a number below 16.
pub open spec fn hex_digit(n: int) -> char {
    if n < 10 {
        (n + 48) as char
    } else {
        (n + 87) as char
    }
}

/// The `d`-th of the 32 hexadecimal digits of `value`, counted from the
/// most significant.
pub open spec fn nibble(value: u128, d: int) -> int {
    (value as int / pow(16, (31 - d) as nat)) % 16
}

/// Which of the 32 digits stands at place `k` of the hyphenated form.
pub open spec fn digit_at(k: int) -> int {
    if k < 8 {
        k
    } else if k < 13 {
        k - 1
    } else if k < 18 {
        k - 2
    } else if k < 23 {
        k - 3
    } else {
        k - 4
    }
}

/// The hyphenated text of an identifier: its 32 lowercase hexadecimal
/// digits, most significant first, in groups of 8, 4, 4, 4 and 12 joined by
/// `-`.
pub open spec fn uuid_text(value: u128) -> Seq<char> {
    Seq::new(
        36,
        |k: int|
            if k == 8 || k == 13 || k == 18 || k == 23 {
                '-'
            } else {
                hex_digit(nibble(value, digit_at(k)))
            },
    )
}

/// What `uuid` parses from this text: the identifier's value, or nothing.
pub uninterp spec fn uuid_parse(text: Seq<char>) -> Option<u128>;

/// Calls `uuid::Uuid::from_u128`, which keeps the value's bytes most
/// significant first, and formats the result with `Display`, which writes
/// the hyphenated lowercase form; the crate's parser accepts that form and
/// gives back the same value.
#[verifier::external_body]
fn format_uuid(value: u128) -> (r: String)
    ensures
        r@ == uuid_text(value),
        uuid_parse(r@) == Some(value),
{
    uuid::Uuid::from_u128(value).to_string()
}

/// Calls `uuid::Uuid::parse_str` and, on success, `as_u128`. The parser
/// accepts only inputs of 32, 36, 38 or 45 bytes, all of them ASCII, so an
/// accepted text has one of these lengths.
#[verifier::external_body]
fn parse_uuid(text: &str) -> (r: Option<u128>)
    ensures
        r == uuid_parse(text@),
        r is Some ==> (text@.len() == 32 || text@.len() == 36 || text@.len() == 38
            || text@.len() == 45),
{
    match uuid::Uuid::parse_str(text) {
        Ok(u) => Some(u.as_u128()),
        Err(_) => None,
    }
}

impl Uuid {
    /// The text form of the identifier.
    pub open spec fn text(self) -> Seq<char> {
        uuid_text(self.value)
    }

    /// Writes the identifier in its hyphenated text form.
    pub fn to_text(&self) -> (r: String)
        ensures
            r@ == self.text(),
            r@.len() == 36,
            uuid_parse(r@) == Some(self.value),
    {
        format_uuid(self.value)
    }

    /// Reads an identifier from its text form.
    pub fn parse_str(text: &str) -> (r: Option<Uuid>)
        ensures
            match uuid_parse(text@) {
                Some(v) => r == Some(Uuid { value: v }),
                None => r is None,
            },
            r is Some ==> (text@.len() == 32 || text@.len() == 36 || text@.len() == 38
                || text@.len() == 45),
    {
        match parse_uuid(text) {
            Some(v) => Some(Uuid { value: v }),
            None => None,
        }
    }
}

} // verus!
