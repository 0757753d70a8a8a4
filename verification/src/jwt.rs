//! The user's token: locating and decoding its payload, and what the
//! payload says about the user (roles, identity, expiry, refresh).

use vstd::prelude::*;
use crate::ids::UserUuid;
use vstd::string::StringSliceAdditionalSpecFns;

verus! {

/// The roles a user can hold.
#[derive(Clone, Copy, Debug, PartialEq, Eq, Structural)]
pub enum UserRole {
    Unprivileged,
    Moderator,
    Admin,
    Publisher,
}

/// The payload of a token; times are seconds since the Unix epoch.
#[derive(Debug)]
pub struct Jwt {
    /// The user the token belongs to.
    pub sub: UserUuid,
    pub user_roles: Vec<UserRole>,
    /// When the token expires.
    pub exp: i64,
    /// When the token was issued.
    pub iat: i64,
}

/// Why a token's payload could not be read.
#[derive(Clone, Copy, Debug, PartialEq, Eq, Structural)]
pub enum JwtError {
    /// The token does not have exactly three `.`-separated sections.
    UnexpectedNumberOfSections,
    /// The second section is not URL-safe Base64 of a JSON text.
    Base64DecodeFailure,
    /// The JSON text does not describe a payload.
    JsonDecodeFailure,
}

/// The byte of the `.` that separates a token's sections.
pub open spec fn dot() -> u8 {
    46
}

/// The position of the first `.` at or after `from`, or the length when there is none.
pub open spec fn next_dot(b: Seq<u8>, from: int) -> int
    decreases b.len() - from,
{
    if from < 0 || from >= b.len() {
        b.len() as int
    } else if b[from] == dot() {
        from
    } else {
        next_dot(b, from + 1)
    }
}

/// The second of the `.`-separated sections of a token's bytes, when the
/// bytes split into exactly three sections (exactly two `.`); otherwise none.
pub open spec fn payload_segment(b: Seq<u8>) -> Option<Seq<u8>> {
    let i = next_dot(b, 0);
    let j = next_dot(b, i + 1);
    if i >= b.len() || j >= b.len() || next_dot(b, j + 1) < b.len() {
        None
    } else {
        Some(b.subrange(i + 1, j))
    }
}

/// What `base64` decodes from these bytes with the URL-safe alphabet and
/// padding, or nothing when they are not such Base64.
pub uninterp spec fn base64_url_decode(input: Seq<u8>) -> Option<Seq<u8>>;

/// Whether `serde_json` reads these bytes as one JSON value.
pub uninterp spec fn json_value_parses(input: Seq<u8>) -> bool;

/// Calls `base64::decode_config` with `base64::URL_SAFE`. The call panics
/// only when counting the input's 8-byte chunks overflows, that is when its
/// length plus 7 does not fit in a `usize`.
#[verifier::external_body]
fn decode_base64_url(input: &[u8]) -> (r: Option<Vec<u8>>)
    requires
        input@.len() + 7 <= usize::MAX,
    ensures
        match base64_url_decode(input@) {
            Some(bytes) => r matches Some(v) && v@ == bytes,
            None => r is None,
        },
{
    base64::decode_config(input, base64::URL_SAFE).ok()
}

/// Calls `serde_json::from_slice` for a `serde_json::Value` and tells
/// whether it succeeded.
#[verifier::external_body]
fn parses_as_json(input: &[u8]) -> (r: bool)
    ensures
        r == json_value_parses(input@),
{
    serde_json::from_slice::<serde_json::Value>(input).is_ok()
}

/// The JSON text of a token's payload: its second section, decoded from
/// URL-safe Base64 and checked to be JSON.
pub open spec fn spec_payload_json(b: Seq<u8>) -> Result<Seq<u8>, JwtError> {
    match payload_segment(b) {
        None => Err(JwtError::UnexpectedNumberOfSections),
        Some(segment) => match base64_url_decode(segment) {
            Some(json) => if json_value_parses(json) {
                Ok(json)
            } else {
                Err(JwtError::Base64DecodeFailure)
            },
            None => Err(JwtError::Base64DecodeFailure),
        },
    }
}

fn find_dot(b: &[u8], from: usize) -> (r: usize)
    requires
        from <= b@.len(),
    ensures
        r == next_dot(b@, from as int),
        from <= r <= b@.len(),
{
    let mut k = from;
    while k < b.len()
        invariant
            from <= k <= b@.len(),
            next_dot(b@, from as int) == next_dot(b@, k as int),
        decreases b@.len() - k,
    {
        if b[k] == 46 {
            return k;
        }
        k = k + 1;
    }
    k
}

fn copy_range(b: &[u8], start: usize, end: usize) -> (r: Vec<u8>)
    requires
        start <= end <= b@.len(),
    ensures
        r@ == b@.subrange(start as int, end as int),
{
    let mut v: Vec<u8> = Vec::new();
    let mut k = start;
    while k < end
        invariant
            start <= k <= end,
            end <= b@.len(),
            v@ == b@.subrange(start as int, k as int),
        decreases end - k,
    {
        v.push(b[k]);
        k = k + 1;
        assert(v@ =~= b@.subrange(start as int, k as int));
    }
    v
}

/// Reads the JSON text of a token's payload (the caller reads the payload
/// record from it): a token that does not split into exactly three
/// `.`-separated sections is refused; a second section that is not URL-safe
/// Base64 of a JSON text is refused as a Base64 failure.
pub fn extract_payload_from_jwt(jwt_string: &str) -> (r: Result<Vec<u8>, JwtError>)
    requires
        jwt_string.spec_bytes().len() + 7 <= usize::MAX,
    ensures
        match spec_payload_json(jwt_string.spec_bytes()) {
            Ok(json) => r matches Ok(v) && v@ == json,
            Err(e) => r == Err::<Vec<u8>, JwtError>(e),
        },
{
    let b = jwt_string.as_bytes();
    let i = find_dot(b, 0);
    if i >= b.len() {
        return Err(JwtError::UnexpectedNumberOfSections);
    }
    let j = find_dot(b, i + 1);
    if j >= b.len() {
        return Err(JwtError::UnexpectedNumberOfSections);
    }
    let k = find_dot(b, j + 1);
    if k < b.len() {
        return Err(JwtError::UnexpectedNumberOfSections);
    }
    let segment = copy_range(b, i + 1, j);
    match decode_base64_url(segment.as_slice()) {
        Some(json) => {
            if parses_as_json(json.as_slice()) {
                Ok(json)
            } else {
                Err(JwtError::Base64DecodeFailure)
            }
        },
        None => Err(JwtError::Base64DecodeFailure),
    }
}

/// Whether `roles` holds `role`.
pub fn has_role(roles: &Vec<UserRole>, role: UserRole) -> (r: bool)
    ensures
        r == roles@.contains(role),
{
    let mut k: usize = 0;
    while k < roles.len()
        invariant
            k <= roles@.len(),
            forall|j: int| 0 <= j < k ==> roles@[j] != role,
        decreases roles@.len() - k,
    {
        if roles[k] == role {
            return true;
        }
        k = k + 1;
    }
    false
}

/// The token kept in the browser's storage, with its payload as read.
#[derive(Debug)]
pub enum StoredToken {
    /// No token is stored: the user is logged out.
    Absent,
    /// A token is stored, and this is what its payload reads as.
    Present { token: String, payload: Result<Jwt, JwtError> },
}

/// Why something about the user could not be learned from the token.
#[derive(Clone, Copy, Debug, PartialEq, Eq, Structural)]
pub enum TokenError {
    NoToken,
    Malformed(JwtError),
}

/// One day, in seconds.
pub const ONE_DAY_SECONDS: i64 = 86400;

impl StoredToken {
    /// Whether a token is stored.
    pub fn is_logged_in(&self) -> (r: bool)
        ensures
            r == (*self is Present),
    {
        match self {
            StoredToken::Absent => false,
            StoredToken::Present { .. } => true,
        }
    }

    /// Whether the stored token names a user holding `role`; false when no
    /// token is stored or it cannot be read.
    pub fn user_has_role(&self, role: UserRole) -> (r: bool)
        ensures
            r == (*self matches StoredToken::Present { payload: Ok(jwt), .. }
                && jwt.user_roles@.contains(role)),
    {
        match self {
            StoredToken::Present { payload: Ok(jwt), .. } => has_role(&jwt.user_roles, role),
            _ => false,
        }
    }

    /// The user is unprivileged.
    pub fn user_is_unprivileged(&self) -> (r: bool)
        ensures
            r == (*self matches StoredToken::Present { payload: Ok(jwt), .. }
                && jwt.user_roles@.contains(UserRole::Unprivileged)),
    {
        self.user_has_role(UserRole::Unprivileged)
    }

    /// The user is a moderator.
    pub fn user_is_moderator(&self) -> (r: bool)
        ensures
            r == (*self matches StoredToken::Present { payload: Ok(jwt), .. }
                && jwt.user_roles@.contains(UserRole::Moderator)),
    {
        self.user_has_role(UserRole::Moderator)
    }

    /// The user is a publisher.
    pub fn user_is_publisher(&self) -> (r: bool)
        ensures
            r == (*self matches StoredToken::Present { payload: Ok(jwt), .. }
                && jwt.user_roles@.contains(UserRole::Publisher)),
    {
        self.user_has_role(UserRole::Publisher)
    }

    /// The user is an admin.
    pub fn user_is_admin(&self) -> (r: bool)
        ensures
            r == (*self matches StoredToken::Present { payload: Ok(jwt), .. }
                && jwt.user_roles@.contains(UserRole::Admin)),
    {
        self.user_has_role(UserRole::Admin)
    }

    /// The user the stored token names.
    pub fn user_id(&self) -> (r: Result<UserUuid, TokenError>)
        ensures
            match *self {
                StoredToken::Absent => r == Err::<UserUuid, TokenError>(TokenError::NoToken),
                StoredToken::Present { payload: Ok(jwt), .. } => r == Ok::<UserUuid, TokenError>(
                    jwt.sub,
                ),
                StoredToken::Present { payload: Err(e), .. } => r == Err::<UserUuid, TokenError>(
                    TokenError::Malformed(e),
                ),
            },
    {
        match self {
            StoredToken::Absent => Err(TokenError::NoToken),
            StoredToken::Present { payload: Ok(jwt), .. } => Ok(jwt.sub),
            StoredToken::Present { payload: Err(e), .. } => Err(TokenError::Malformed(*e)),
        }
    }

    /// When the stored token expires.
    pub fn user_auth_expire_date(&self) -> (r: Result<i64, TokenError>)
        ensures
            match *self {
                StoredToken::Absent => r == Err::<i64, TokenError>(TokenError::NoToken),
                StoredToken::Present { payload: Ok(jwt), .. } => r == Ok::<i64, TokenError>(
                    jwt.exp,
                ),
                StoredToken::Present { payload: Err(e), .. } => r == Err::<i64, TokenError>(
                    TokenError::Malformed(e),
                ),
            },
    {
        match self {
            StoredToken::Absent => Err(TokenError::NoToken),
            StoredToken::Present { payload: Ok(jwt), .. } => Ok(jwt.exp),
            StoredToken::Present { payload: Err(e), .. } => Err(TokenError::Malformed(*e)),
        }
    }

    /// The token, when it exists, can be read, and its expiry date is before
    /// `now`: the token counts as valid then.
    pub fn get_token_if_valid(&self, now: i64) -> (r: Option<String>)
        ensures
            match *self {
                StoredToken::Present { token, payload: Ok(jwt) } => if jwt.exp < now {
                    r == Some(token)
                } else {
                    r is None
                },
                _ => r is None,
            },
    {
        match self {
            StoredToken::Present { token, payload: Ok(jwt) } => {
                if jwt.exp < now {
                    Some(token.clone())
                } else {
                    None
                }
            },
            _ => None,
        }
    }
}

/// Whether a token issued at `issued_at` is due for renewal at `now`: more
/// than a day has passed.
pub open spec fn refresh_due(issued_at: i64, now: i64) -> bool {
    now > issued_at + ONE_DAY_SECONDS
}

/// Whether the token whose payload reads as `payload` is renewed at `now`;
/// a payload that cannot be read counts as issued at the epoch.
pub fn jwt_refresh_needed(payload: &Result<Jwt, JwtError>, now: i64) -> (r: bool)
    ensures
        r == match *payload {
            Ok(jwt) => refresh_due(jwt.iat, now),
            Err(_) => refresh_due(0, now),
        },
{
    let iat: i64 = match payload {
        Ok(jwt) => jwt.iat,
        Err(_) => 0,
    };
    (now as i128) > (iat as i128) + (ONE_DAY_SECONDS as i128)
}

/// The stored token for a request made at `now`, and whether it is
/// renewed; refused when no token is stored or it cannot be read.
pub fn get_and_refresh_jwt(stored: &StoredToken, now: i64) -> (r: Result<(String, bool), TokenError>)
    ensures
        match *stored {
            StoredToken::Absent => r == Err::<(String, bool), TokenError>(TokenError::NoToken),
            StoredToken::Present { payload: Err(e), .. } => r == Err::<(String, bool), TokenError>(
                TokenError::Malformed(e),
            ),
            StoredToken::Present { token, payload: Ok(jwt) } => r == Ok::<
                (String, bool),
                TokenError,
            >((token, refresh_due(jwt.iat, now))),
        },
{
    match stored {
        StoredToken::Absent => Err(TokenError::NoToken),
        StoredToken::Present { payload: Err(e), .. } => Err(TokenError::Malformed(*e)),
        StoredToken::Present { token, payload } => {
            let refresh = jwt_refresh_needed(payload, now);
            Ok((token.clone(), refresh))
        },
    }
}

} // verus!
