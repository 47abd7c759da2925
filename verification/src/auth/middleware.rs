//! The authentication gate: from the `Authorization` header of a request
//! to the identity it runs under, or to the one rejection.
//!
//! It has two steps with a lookup in the user directory between them.
//! `AuthRequired::subject` reads the header and validates the token; the
//! caller then looks the subject up; `AuthRequired::confirm` decides on what
//! the lookup found. A token cannot be revoked before it expires, so the
//! lookup is what keeps the token of a deleted account from being honoured.
//! A lookup that fails or runs out of time lets nobody in: it is rejected
//! like an unknown subject, and its cause is the caller's to log.

use vstd::prelude::*;
use vstd::string::*;
use vstd::utf8::*;
use crate::auth::jwt::{
    claims_at, compact_form, is_reading, is_token_char, issued_at, unix_now, validate_jwt_at,
    verdict_at, Verdict,
};
use crate::errors::AppError;
use crate::models::user::{AuthenticatedUser, User, UserId};

verus! {

/// A character that a header value may hold as text: printable ASCII or a
/// tab.
pub open spec fn is_visible_ascii(c: char) -> bool {
    (' ' <= c && c <= '~') || c == '\t'
}

/// A space or a tab.
pub open spec fn is_blank(c: char) -> bool {
    c == ' ' || c == '\t'
}

/// Whether the character is the given capital letter or its small form.
pub open spec fn is_letter(c: char, capital: char) -> bool {
    c == capital || c as int == capital as int + 32
}

/// Whether the header value opens with the scheme `Bearer`, in any mix of
/// upper and lower case, and a space.
pub open spec fn names_bearer(h: Seq<char>) -> bool {
    &&& h.len() > 6
    &&& is_letter(h[0], 'B')
    &&& is_letter(h[1], 'E')
    &&& is_letter(h[2], 'A')
    &&& is_letter(h[3], 'R')
    &&& is_letter(h[4], 'E')
    &&& is_letter(h[5], 'R')
    &&& h[6] == ' '
}

/// Whether the header value has the form `Bearer <token>`.
pub open spec fn bearer_form(h: Seq<char>) -> bool {
    &&& forall|i: int| 0 <= i < h.len() ==> is_visible_ascii(#[trigger] h[i])
    &&& names_bearer(h)
}

/// The text without its leading blanks.
pub open spec fn skip_blanks(s: Seq<char>) -> Seq<char>
    decreases s.len(),
{
    if s.len() > 0 && is_blank(s[0]) {
        skip_blanks(s.drop_first())
    } else {
        s
    }
}

/// The token of a header value of bearer form: what follows the scheme and
/// its space, without leading blanks. It may be empty.
pub open spec fn bearer_token_of(h: Seq<char>) -> Seq<char> {
    skip_blanks(h.subrange(7, h.len() as int))
}

const TAB: u8 = 9;

const SPACE: u8 = 32;

const TILDE: u8 = 126;

fn letter_at(text: &str, i: usize, capital: char) -> (r: bool)
    requires
        is_ascii(text),
        i < text@.len(),
        'A' <= capital <= 'Z',
    ensures
        r == is_letter(text@[i as int], capital),
{
    let b = text.get_ascii(i);
    let c = capital as u8;
    b == c || b == c + 32
}

/// Extracts the token from the value of an `Authorization` header.
///
/// `None` exactly where the value is not of the form `Bearer <token>`.
pub fn bearer_token(header: &str) -> (r: Option<&str>)
    ensures
        match r {
            Some(t) => bearer_form(header@) && t@ == bearer_token_of(header@),
            None => !bearer_form(header@),
        },
{
    if !header.is_ascii() {
        return None;
    }
    let n = header.as_bytes().len();
    proof {
        is_ascii_chars_encode_utf8(header@);
    }
    let mut i: usize = 0;
    while i < n
        invariant
            is_ascii(header),
            n == header@.len(),
            i <= n,
            forall|j: int| 0 <= j < i ==> is_visible_ascii(#[trigger] header@[j]),
        decreases n - i,
    {
        let b = header.get_ascii(i);
        if !((SPACE <= b && b <= TILDE) || b == TAB) {
            assert(!is_visible_ascii(header@[i as int]));
            return None;
        }
        i += 1;
    }
    if n <= 6 {
        return None;
    }
    let scheme = letter_at(header, 0, 'B') && letter_at(header, 1, 'E') && letter_at(
        header,
        2,
        'A',
    ) && letter_at(header, 3, 'R') && letter_at(header, 4, 'E') && letter_at(header, 5, 'R');
    if !scheme || header.get_ascii(6) != SPACE {
        return None;
    }
    let mut start: usize = 7;
    let mut scanning = true;
    while scanning && start < n
        invariant
            is_ascii(header),
            n == header@.len(),
            7 <= start <= n,
            bearer_token_of(header@) == skip_blanks(header@.subrange(start as int, n as int)),
            !scanning ==> start < n && !is_blank(header@[start as int]),
        decreases n - start + if scanning { 1int } else { 0int },
    {
        let b = header.get_ascii(start);
        if b == SPACE || b == TAB {
            proof {
                let rest = header@.subrange(start as int, n as int);
                assert(is_blank(rest[0]));
                assert(rest.drop_first() =~= header@.subrange(start + 1, n as int));
            }
            start += 1;
        } else {
            scanning = false;
        }
    }
    Some(header.substring_ascii(start, n))
}

/// The header value as the contracts see it.
pub open spec fn header_text(authorization: Option<&str>) -> Option<Seq<char>> {
    match authorization {
        Some(h) => Some(h@),
        None => None,
    }
}

/// The subject that the first step lets through at `now`, if any: the
/// header must be there and of bearer form, and its token valid.
pub open spec fn gate_subject(authorization: Option<Seq<char>>, secret: Seq<char>, now: i64) -> Option<
    UserId,
> {
    match authorization {
        None => None,
        Some(h) => if bearer_form(h) {
            match verdict_at(bearer_token_of(h), secret, now) {
                Verdict::Valid(claims) => Some(claims.sub),
                _ => None,
            }
        } else {
            None
        },
    }
}

/// The outcome of the first step at `now`: the subject to look up, or the
/// rejection, which is the same whatever went wrong.
pub open spec fn gate_outcome(authorization: Option<Seq<char>>, secret: Seq<char>, now: i64) -> Result<
    UserId,
    AppError,
> {
    match gate_subject(authorization, secret, now) {
        Some(subject) => Ok(subject),
        None => Err(AppError::Unauthorized),
    }
}

/// Proof that a request passed, with the identity it runs under.
#[derive(Debug, Clone, Copy)]
pub struct AuthRequired(pub AuthenticatedUser);

/// The outcome of the second step: a known subject is accepted; an
/// unknown one is rejected, and so is a lookup that failed, whatever its
/// cause.
pub open spec fn confirm_outcome(subject: UserId, lookup: Result<Option<User>, AppError>) -> Result<
    AuthRequired,
    AppError,
> {
    match lookup {
        Ok(Some(_)) => Ok(AuthRequired(AuthenticatedUser { user_id: subject })),
        Ok(None) => Err(AppError::Unauthorized),
        Err(_) => Err(AppError::Unauthorized),
    }
}

impl AuthRequired {
    /// First step, as of `now`: reads the header and validates the token.
    /// Returns the subject that is to be looked up.
    pub fn subject_at(authorization: Option<&str>, secret: &str, now: i64) -> (r: Result<
        UserId,
        AppError,
    >)
        ensures
            r == gate_outcome(header_text(authorization), secret@, now),
    {
        let header = match authorization {
            Some(h) => h,
            None => { return Err(AppError::Unauthorized); },
        };
        let token = match bearer_token(header) {
            Some(t) => t,
            None => { return Err(AppError::Unauthorized); },
        };
        match validate_jwt_at(token, secret, now) {
            Ok(claims) => Ok(claims.sub),
            Err(_) => Err(AppError::Unauthorized),
        }
    }

    /// First step, against the clock: what `subject_at` does at some
    /// reading of the clock.
    pub fn subject(authorization: Option<&str>, secret: &str) -> (r: Result<UserId, AppError>)
        ensures
            exists|now: i64|
                is_reading(now) && r == gate_outcome(header_text(authorization), secret@, now),
    {
        let now = unix_now();
        Self::subject_at(authorization, secret, now)
    }

    /// Second step: decides on what the lookup of the subject in the user
    /// directory found. The lookup is made once; where it failed, the
    /// request is rejected.
    pub fn confirm(subject: UserId, lookup: Result<Option<User>, AppError>) -> (r: Result<
        AuthRequired,
        AppError,
    >)
        ensures
            r == confirm_outcome(subject, lookup),
    {
        match lookup {
            Ok(Some(_)) => Ok(AuthRequired(AuthenticatedUser { user_id: subject })),
            Ok(None) => Err(AppError::Unauthorized),
            Err(_) => Err(AppError::Unauthorized),
        }
    }
}

/// There is one rejection. No header, a header that does not open with
/// the bearer scheme, a well-formed token whose time is up, a valid token
/// for a subject that the directory does not know and a lookup that failed
/// all end in `AppError::Unauthorized`, and so does every other failure of
/// either step; a client sees the same status and message for each.
pub proof fn lemma_gate_rejects_alike(
    authorization: Option<Seq<char>>,
    secret: Seq<char>,
    now: i64,
    subject: UserId,
    lookup: Result<Option<User>, AppError>,
)
    ensures
        authorization is None ==> gate_outcome(authorization, secret, now) == Err::<
            UserId,
            AppError,
        >(AppError::Unauthorized),
        authorization matches Some(h) && !names_bearer(h) ==> gate_outcome(
            authorization,
            secret,
            now,
        ) == Err::<UserId, AppError>(AppError::Unauthorized),
        authorization matches Some(h) && bearer_form(h) && verdict_at(
            bearer_token_of(h),
            secret,
            now,
        ) is Expired ==> gate_outcome(authorization, secret, now) == Err::<UserId, AppError>(
            AppError::Unauthorized,
        ),
        confirm_outcome(subject, Ok(None)) == Err::<AuthRequired, AppError>(AppError::Unauthorized),
        lookup is Err ==> confirm_outcome(subject, lookup) == Err::<AuthRequired, AppError>(
            AppError::Unauthorized,
        ),
        gate_outcome(authorization, secret, now) matches Err(e) ==> e == AppError::Unauthorized,
        confirm_outcome(subject, lookup) matches Err(e) ==> e == AppError::Unauthorized,
        AppError::Unauthorized.status() == 401,
        AppError::Unauthorized.message() == "Authentication required"@,
{
}

/// The value of the `Authorization` header that carries a token.
pub open spec fn bearer_header(token: Seq<char>) -> Seq<char> {
    "Bearer "@ + token
}

/// An issued token passes through the header unchanged, and the first step
/// judges it by its time: in the header `Bearer ` and the token, it yields
/// the subject it was issued for at every instant before its expiry, and
/// the rejection from its expiry on.
///
/// As with validation, the subject is yielded only where the expiry does
/// not lie before the Unix epoch.
pub proof fn lemma_issued_token_through_header(
    user_id: UserId,
    secret: Seq<char>,
    lifetime: i64,
    now: i64,
    at: i64,
    issued: Result<String, AppError>,
)
    requires
        issued_at(user_id, secret, lifetime, now, issued),
        issued is Ok,
    ensures
        bearer_form(bearer_header(issued->Ok_0@)),
        bearer_token_of(bearer_header(issued->Ok_0@)) == issued->Ok_0@,
        at >= now + lifetime ==> gate_outcome(Some(bearer_header(issued->Ok_0@)), secret, at)
            == Err::<UserId, AppError>(AppError::Unauthorized),
        0 <= now + lifetime && at < now + lifetime ==> gate_outcome(
            Some(bearer_header(issued->Ok_0@)),
            secret,
            at,
        ) == Ok::<UserId, AppError>(user_id),
{
    reveal_strlit("Bearer ");
    let token = issued->Ok_0@;
    let header = bearer_header(token);
    assert(compact_form(token));
    assert(header.len() == 7 + token.len());
    assert forall|i: int| 0 <= i < header.len() implies is_visible_ascii(#[trigger] header[i]) by {
        if i >= 7 {
            assert(header[i] == token[i - 7]);
            assert(is_token_char(token[i - 7]));
        }
    }
    assert(names_bearer(header));
    assert(header.subrange(7, header.len() as int) =~= token);
    assert(is_token_char(token[0]));
    assert(skip_blanks(token) == token);
    assert(claims_at(user_id, lifetime, now).sub == user_id);
}

} // verus!
