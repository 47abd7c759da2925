//! Signed, time-bounded bearer tokens: HS256 JSON Web Tokens that carry a
//! subject, the time of issue and the time of expiry.
//!
//! Signing and parsing are the codec's work. What makes a token acceptable
//! is decided here, step by step: its frame, the algorithm its header names,
//! its signature, its claims, and its expiry against a clock reading that is
//! handed in, so that the rule can be stated and tested for any instant.
//! A token is handed out only after it was read back.

use vstd::prelude::*;
use vstd::string::*;
use vstd::utf8::*;
use crate::errors::{AppError, TokenError};
use crate::models::user::UserId;

verus! {

/// The claims of a token. `exp` and `iat` are seconds since the Unix epoch;
/// a token is issued with `exp == iat + lifetime`.
#[derive(Debug, Clone, Copy)]
pub struct Claims {
    /// Subject: the user the token speaks for.
    pub sub: UserId,
    /// Expiry: the token is valid strictly before this instant.
    pub exp: i64,
    /// Time of issue.
    pub iat: i64,
}

/// The claims as read out of a token: each one `None` where the payload
/// lacks it or holds something of another type.
#[derive(Debug, Clone, Copy)]
pub struct RawClaims {
    pub sub: Option<UserId>,
    pub exp: Option<i64>,
    pub iat: Option<i64>,
}

impl Claims {
    /// The claims as they are read back from a token.
    pub open spec fn raw(self) -> RawClaims {
        RawClaims { sub: Some(self.sub), exp: Some(self.exp), iat: Some(self.iat) }
    }
}

impl RawClaims {
    /// The claims, where all three are there.
    pub open spec fn complete(self) -> Option<Claims> {
        match (self.sub, self.exp, self.iat) {
            (Some(sub), Some(exp), Some(iat)) => Some(Claims { sub, exp, iat }),
            _ => None,
        }
    }

    /// Whether these are the claims given, all three of them.
    pub fn holds(&self, claims: &Claims) -> (r: bool)
        ensures
            r == (*self == claims.raw()),
    {
        let sub = match self.sub {
            Some(sub) => sub == claims.sub,
            None => false,
        };
        let exp = match self.exp {
            Some(exp) => exp == claims.exp,
            None => false,
        };
        let iat = match self.iat {
            Some(iat) => iat == claims.iat,
            None => false,
        };
        sub && exp && iat
    }
}

/// How many dots the text holds.
pub open spec fn dot_count(s: Seq<char>) -> nat
    decreases s.len(),
{
    if s.len() == 0 {
        0
    } else {
        dot_count(s.drop_last()) + if s.last() == '.' {
            1nat
        } else {
            0nat
        }
    }
}

/// Where the last dot of the text stands; -1 where it holds none.
pub open spec fn last_dot(s: Seq<char>) -> int
    decreases s.len(),
{
    if s.len() == 0 {
        -1
    } else if s.last() == '.' {
        s.len() - 1
    } else {
        last_dot(s.drop_last())
    }
}

/// Whether the text has the frame of a signed token: ASCII, three parts
/// set apart by two dots, the last part, the signature, not empty.
pub open spec fn well_framed(token: Seq<char>) -> bool {
    &&& is_ascii_chars(token)
    &&& dot_count(token) == 2
    &&& last_dot(token) + 1 < token.len()
}

/// What the signature covers: header and payload with the dot between.
pub open spec fn signed_part(token: Seq<char>) -> Seq<char> {
    token.subrange(0, last_dot(token))
}

/// The signature: what follows the last dot.
pub open spec fn signature_part(token: Seq<char>) -> Seq<char> {
    token.subrange(last_dot(token) + 1, token.len() as int)
}

proof fn lemma_last_dot_bounds(s: Seq<char>)
    ensures
        -1 <= last_dot(s) < s.len(),
        dot_count(s) == 0 <==> last_dot(s) == -1,
        last_dot(s) >= 0 ==> s[last_dot(s)] == '.',
    decreases s.len(),
{
    if s.len() > 0 {
        lemma_last_dot_bounds(s.drop_last());
    }
}

proof fn lemma_replace_char(s: Seq<char>, i: int, c: char)
    requires
        0 <= i < s.len(),
    ensures
        dot_count(s.update(i, c)) + (if s[i] == '.' {
            1nat
        } else {
            0nat
        }) == dot_count(s) + (if c == '.' {
            1nat
        } else {
            0nat
        }),
        c != '.' && i != last_dot(s) ==> last_dot(s.update(i, c)) == last_dot(s),
    decreases s.len(),
{
    let t = s.update(i, c);
    if i == s.len() - 1 {
        assert(t.drop_last() =~= s.drop_last());
    } else {
        assert(t.drop_last() =~= s.drop_last().update(i, c));
        lemma_replace_char(s.drop_last(), i, c);
    }
}

const DOT: u8 = 46;

/// Counts the dots of an ASCII text and finds the last of them.
fn scan_dots(text: &str) -> (r: (usize, usize))
    requires
        is_ascii(text),
    ensures
        r.0 == dot_count(text@),
        r.0 > 0 ==> r.1 == last_dot(text@) && r.1 < text@.len(),
        r.0 == 0 ==> last_dot(text@) == -1,
{
    let n = text.as_bytes().len();
    proof {
        is_ascii_chars_encode_utf8(text@);
    }
    let mut dots: usize = 0;
    let mut last: usize = 0;
    let mut i: usize = 0;
    while i < n
        invariant
            is_ascii(text),
            n == text@.len(),
            i <= n,
            dots <= i,
            dots == dot_count(text@.subrange(0, i as int)),
            dots > 0 ==> last < i && last == last_dot(text@.subrange(0, i as int)),
        decreases n - i,
    {
        proof {
            let next = text@.subrange(0, i + 1);
            assert(next.drop_last() =~= text@.subrange(0, i as int));
            assert(next.last() == text@[i as int]);
        }
        if text.get_ascii(i) == DOT {
            dots += 1;
            last = i;
        }
        i += 1;
    }
    proof {
        assert(text@.subrange(0, n as int) =~= text@);
        lemma_last_dot_bounds(text@);
    }
    (dots, last)
}

/// Splits a token into what is signed and the signature.
///
/// `None` exactly where the text has not the frame of a signed token.
pub fn split_token(token: &str) -> (r: Option<(&str, &str)>)
    ensures
        match r {
            Some((message, signature)) => {
                &&& well_framed(token@)
                &&& message@ == signed_part(token@)
                &&& signature@ == signature_part(token@)
            },
            None => !well_framed(token@),
        },
{
    if !token.is_ascii() {
        return None;
    }
    let n = token.as_bytes().len();
    proof {
        is_ascii_chars_encode_utf8(token@);
        lemma_last_dot_bounds(token@);
    }
    let (dots, last) = scan_dots(token);
    if dots != 2 || last + 1 >= n {
        return None;
    }
    Some((token.substring_ascii(0, last), token.substring_ascii(last + 1, n)))
}

/// The length of an HS256 signature as text: 32 bytes in base64 without
/// padding.
pub const SIGNATURE_LENGTH: usize = 43;

/// A character of the URL-safe base64 alphabet.
pub open spec fn is_base64url(c: char) -> bool {
    ('A' <= c && c <= 'Z') || ('a' <= c && c <= 'z') || ('0' <= c && c <= '9') || c == '-' || c
        == '_'
}

/// A character that a token in compact form is made of.
pub open spec fn is_token_char(c: char) -> bool {
    c == '.' || is_base64url(c)
}

/// Whether the text has the compact form of an HS256 token: a header, a
/// payload and a signature set apart by two dots, each of them unpadded
/// URL-safe base64, header and payload not empty, the signature of
/// `SIGNATURE_LENGTH` characters.
pub open spec fn compact_form(token: Seq<char>) -> bool {
    &&& well_framed(token)
    &&& forall|i: int| 0 <= i < token.len() ==> is_token_char(#[trigger] token[i])
    &&& 0 < last_dot(signed_part(token))
    &&& last_dot(signed_part(token)) + 1 < signed_part(token).len()
    &&& signature_part(token).len() == SIGNATURE_LENGTH
}

fn is_token_byte(b: u8) -> (r: bool)
    ensures
        r == (b < 128 && is_token_char(b as char)),
{
    (65 <= b && b <= 90) || (97 <= b && b <= 122) || (48 <= b && b <= 57) || b == 45 || b == 95
        || b == DOT
}

/// Whether the text has the compact form of an HS256 token.
pub fn is_compact(token: &str) -> (r: bool)
    ensures
        r == compact_form(token@),
{
    let (message, signature) = match split_token(token) {
        Some(parts) => parts,
        None => { return false; },
    };
    proof {
        is_ascii_chars_encode_utf8(token@);
        lemma_last_dot_bounds(token@);
        assert(is_ascii_chars(message@));
        assert(is_ascii_chars(signature@));
        is_ascii_chars_encode_utf8(message@);
        is_ascii_chars_encode_utf8(signature@);
    }
    let (dots, first) = scan_dots(message);
    if dots == 0 || first == 0 || first >= message.as_bytes().len() - 1 {
        return false;
    }
    if signature.as_bytes().len() != SIGNATURE_LENGTH {
        return false;
    }
    let n = token.as_bytes().len();
    let mut i: usize = 0;
    while i < n
        invariant
            is_ascii(token),
            n == token@.len(),
            i <= n,
            forall|j: int| 0 <= j < i ==> is_token_char(#[trigger] token@[j]),
        decreases n - i,
    {
        if !is_token_byte(token.get_ascii(i)) {
            assert(!is_token_char(token@[i as int]));
            return false;
        }
        i += 1;
    }
    true
}

/// The token that the codec makes of the claims under the secret, or `None`
/// where it makes none.
pub uninterp spec fn hs256_token(sub: u128, exp: i64, iat: i64, secret: Seq<char>) -> Option<
    Seq<char>,
>;

/// The name of the algorithm in the header of a token, as the codec reads
/// it; `None` where it reads no header.
pub uninterp spec fn header_algorithm(token: Seq<char>) -> Option<Seq<char>>;

/// The HS256 signature of a message under the secret, as text: the one
/// signature that the codec accepts for the message. `None` where the codec
/// cannot sign.
pub uninterp spec fn hs256_signature(message: Seq<char>, secret: Seq<char>) -> Option<Seq<char>>;

/// What the codec reads out of a token under the secret, leaving the clock
/// aside: `None` where it refuses the token.
pub uninterp spec fn hs256_claims(token: Seq<char>, secret: Seq<char>) -> Option<RawClaims>;

/// `jsonwebtoken::encode` with an HS256 header: the claims as a JSON object
/// with the members `sub` (the subject as a UUID in hyphenated form), `exp`
/// and `iat`, in this order, signed with the secret. The result depends on
/// the arguments alone.
#[verifier::external_body]
fn encode_hs256(claims: &Claims, secret: &str) -> (r: Result<String, jsonwebtoken::errors::Error>)
    ensures
        hs256_token(claims.sub, claims.exp, claims.iat, secret@) == match r {
            Ok(t) => Some(t@),
            Err(_) => None,
        },
{
    let mut body = serde_json::Map::new();
    let sub = uuid::Uuid::from_u128(claims.sub).to_string();
    body.insert("sub".to_string(), serde_json::Value::from(sub));
    body.insert("exp".to_string(), serde_json::Value::from(claims.exp));
    body.insert("iat".to_string(), serde_json::Value::from(claims.iat));
    let key = jsonwebtoken::EncodingKey::from_secret(secret.as_bytes());
    jsonwebtoken::encode(&jsonwebtoken::Header::new(jsonwebtoken::Algorithm::HS256), &body, &key)
}

/// `jsonwebtoken::decode_header`: decodes the first part of a token, with
/// no check of anything else, and here hands out the name of the algorithm
/// it found. The result depends on the token alone.
#[verifier::external_body]
fn token_algorithm(token: &str) -> (r: Option<String>)
    ensures
        header_algorithm(token@) == match r {
            Some(name) => Some(name@),
            None => None,
        },
{
    jsonwebtoken::decode_header(token).ok().map(|header| format!("{:?}", header.alg))
}

/// `jsonwebtoken::crypto::verify` for HS256: signs the message anew under
/// the secret, as `jsonwebtoken::crypto::sign` does, and compares the
/// result with the signature given, in constant time. It fails only where
/// signing fails.
#[verifier::external_body]
fn signature_holds(signature: &str, message: &str, secret: &str) -> (r: Result<
    bool,
    jsonwebtoken::errors::Error,
>)
    ensures
        match r {
            Ok(holds) => hs256_signature(message@, secret@) matches Some(s) && holds == (
            signature@ == s),
            Err(_) => hs256_signature(message@, secret@) is None,
        },
{
    let key = jsonwebtoken::DecodingKey::from_secret(secret.as_bytes());
    jsonwebtoken::crypto::verify(signature, message.as_bytes(), &key, jsonwebtoken::Algorithm::HS256)
}

/// `jsonwebtoken::decode`, accepting HS256 only and with its own check of
/// the clock switched off: checks frame, algorithm and signature, wants an
/// `exp` that is a non-negative number, and parses the payload. The result
/// depends on the arguments alone. Each claim is handed out as found: `sub`
/// where it is text that `uuid::Uuid::parse_str` reads, `exp` and `iat`
/// where they are integers of 64 bits.
#[verifier::external_body]
fn decode_hs256(token: &str, secret: &str) -> (r: Result<RawClaims, jsonwebtoken::errors::Error>)
    ensures
        hs256_claims(token@, secret@) == match r {
            Ok(raw) => Some(raw),
            Err(_) => None,
        },
{
    let mut validation = jsonwebtoken::Validation::new(jsonwebtoken::Algorithm::HS256);
    validation.validate_exp = false;
    let key = jsonwebtoken::DecodingKey::from_secret(secret.as_bytes());
    let payload = jsonwebtoken::decode::<serde_json::Value>(token, &key, &validation)?.claims;
    let sub = payload.get("sub").and_then(|v| v.as_str()).and_then(|s| uuid::Uuid::parse_str(s).ok());
    Ok(RawClaims {
        sub: sub.map(|id| id.as_u128()),
        exp: payload.get("exp").and_then(|v| v.as_i64()),
        iat: payload.get("iat").and_then(|v| v.as_i64()),
    })
}

/// One second past the last instant that the clock can give: it counts the
/// days since the year 1 in 32 bits, and 719163 of them lie before the Unix
/// epoch.
pub const CLOCK_END: i64 = 185_480_451_504_000;

/// Whether the clock can read `now`.
pub open spec fn is_reading(now: i64) -> bool {
    0 <= now < CLOCK_END
}

/// `chrono::Utc::now` as seconds since the Unix epoch. The clock takes the
/// system's time since the epoch, which is not negative, and makes a date
/// of it, which it can for less than 2^31 days since the year 1 only. No
/// more is known of a reading.
#[verifier::external_body]
pub(crate) fn unix_now() -> (now: i64)
    ensures
        is_reading(now),
{
    chrono::Utc::now().timestamp()
}

/// What reading a token under a secret comes to, leaving the clock aside.
pub enum Reading {
    /// The text has not the frame of a signed token.
    Malformed,
    /// The header cannot be read or names an algorithm other than HS256.
    UnexpectedAlgorithm,
    /// The signature is not the one that the secret gives.
    BadSignature,
    /// The codec refuses: it cannot sign, the payload is no JSON, or it
    /// holds no `exp` that is a non-negative number.
    Rejected,
    /// The token is signed with the secret and carries these claims.
    Signed(RawClaims),
}

/// Reads a token under a secret. The steps are taken in this order, and
/// the first that fails decides.
pub open spec fn reading(token: Seq<char>, secret: Seq<char>) -> Reading {
    if !well_framed(token) {
        Reading::Malformed
    } else if header_algorithm(token) != Some("HS256"@) {
        Reading::UnexpectedAlgorithm
    } else {
        match hs256_signature(signed_part(token), secret) {
            None => Reading::Rejected,
            Some(signature) => if signature_part(token) != signature {
                Reading::BadSignature
            } else {
                match hs256_claims(token, secret) {
                    None => Reading::Rejected,
                    Some(raw) => Reading::Signed(raw),
                }
            },
        }
    }
}

/// What `read_token` returns for each reading.
pub open spec fn read_as(token: Seq<char>, secret: Seq<char>, r: Result<RawClaims, TokenError>) -> bool {
    match reading(token, secret) {
        Reading::Malformed => r == Err::<RawClaims, TokenError>(TokenError::Malformed),
        Reading::UnexpectedAlgorithm => r == Err::<RawClaims, TokenError>(
            TokenError::UnexpectedAlgorithm,
        ),
        Reading::BadSignature => r == Err::<RawClaims, TokenError>(TokenError::BadSignature),
        Reading::Rejected => r matches Err(TokenError::Rejected(_)),
        Reading::Signed(raw) => r == Ok::<RawClaims, TokenError>(raw),
    }
}

/// Reads a token under a secret: checks the frame, the algorithm that the
/// header names and the signature, and hands out the claims found.
pub fn read_token(token: &str, secret: &str) -> (r: Result<RawClaims, TokenError>)
    ensures
        read_as(token@, secret@, r),
{
    let (message, signature) = match split_token(token) {
        Some(parts) => parts,
        None => { return Err(TokenError::Malformed); },
    };
    match token_algorithm(token) {
        None => { return Err(TokenError::UnexpectedAlgorithm); },
        Some(name) => {
            if name != "HS256".to_owned() {
                return Err(TokenError::UnexpectedAlgorithm);
            }
        },
    }
    match signature_holds(signature, message, secret) {
        Err(e) => { return Err(TokenError::Rejected(e)); },
        Ok(false) => { return Err(TokenError::BadSignature); },
        Ok(true) => {},
    }
    match decode_hs256(token, secret) {
        Ok(raw) => Ok(raw),
        Err(e) => Err(TokenError::Rejected(e)),
    }
}

/// What a token is worth at `now`.
pub enum Verdict {
    /// The token cannot be read; the reading says why.
    Unreadable(Reading),
    /// A claim is absent or not of its type.
    MissingClaim,
    /// `now` has reached the expiry.
    Expired,
    /// The token is valid and carries these claims.
    Valid(Claims),
}

/// The verdict on a token under a secret at `now`: it must read as signed,
/// carry all three claims, and `now` must lie strictly before its expiry.
pub open spec fn verdict_at(token: Seq<char>, secret: Seq<char>, now: i64) -> Verdict {
    match reading(token, secret) {
        Reading::Signed(raw) => match raw.complete() {
            None => Verdict::MissingClaim,
            Some(claims) => if now >= claims.exp {
                Verdict::Expired
            } else {
                Verdict::Valid(claims)
            },
        },
        unreadable => Verdict::Unreadable(unreadable),
    }
}

/// What validating at `now` results in: the claims of a valid token, and
/// for every other verdict the token error of that name.
pub open spec fn validated_at(
    token: Seq<char>,
    secret: Seq<char>,
    now: i64,
    r: Result<Claims, AppError>,
) -> bool {
    match verdict_at(token, secret, now) {
        Verdict::Valid(claims) => r == Ok::<Claims, AppError>(claims),
        Verdict::Expired => r == Err::<Claims, AppError>(AppError::JwtError(TokenError::Expired)),
        Verdict::MissingClaim => r == Err::<Claims, AppError>(
            AppError::JwtError(TokenError::MissingClaim),
        ),
        Verdict::Unreadable(_) => r matches Err(AppError::JwtError(e)) && read_as(
            token,
            secret,
            Err(e),
        ),
    }
}

/// Judges what was read of a token at `now`: a token that could not be read
/// fails with the cause, one that lacks a claim with `MissingClaim`, one
/// whose expiry `now` has reached with `Expired`.
pub fn check_claims(read: Result<RawClaims, TokenError>, now: i64) -> (r: Result<Claims, AppError>)
    ensures
        match read {
            Err(e) => r == Err::<Claims, AppError>(AppError::JwtError(e)),
            Ok(raw) => match raw.complete() {
                None => r == Err::<Claims, AppError>(AppError::JwtError(TokenError::MissingClaim)),
                Some(claims) => if now >= claims.exp {
                    r == Err::<Claims, AppError>(AppError::JwtError(TokenError::Expired))
                } else {
                    r == Ok::<Claims, AppError>(claims)
                },
            },
        },
{
    match read {
        Err(e) => Err(AppError::JwtError(e)),
        Ok(raw) => match (raw.sub, raw.exp, raw.iat) {
            (Some(sub), Some(exp), Some(iat)) => if now >= exp {
                Err(AppError::JwtError(TokenError::Expired))
            } else {
                Ok(Claims { sub, exp, iat })
            },
            _ => Err(AppError::JwtError(TokenError::MissingClaim)),
        },
    }
}

/// The claims of a token issued at `now` for `lifetime` seconds.
pub open spec fn claims_at(user_id: UserId, lifetime: i64, now: i64) -> Claims {
    Claims { sub: user_id, exp: (now + lifetime) as i64, iat: now }
}

/// Whether the expiry of a token issued at `now` can be written down.
pub open spec fn expiry_fits(lifetime: i64, now: i64) -> bool {
    i64::MIN <= now + lifetime <= i64::MAX
}

/// Whether a token reads back as it should: as signed and with the claims
/// it was made of. The codec takes no expiry before the Unix epoch; a token
/// with such an expiry must read as refused by it, which it does only after
/// frame and algorithm were found in order.
pub open spec fn reads_back(token: Seq<char>, secret: Seq<char>, claims: Claims) -> bool {
    match reading(token, secret) {
        Reading::Signed(raw) => claims.exp >= 0 && raw == claims.raw(),
        Reading::Rejected => claims.exp < 0,
        _ => false,
    }
}

/// What issuing at `now` results in.
///
/// Where the expiry does not fit in 64 bits, an internal error. Else the
/// token that the codec makes of `claims_at`, if it is in compact form and
/// reads back; an internal error if it does not; or the codec's refusal to
/// make one.
pub open spec fn issued_at(
    user_id: UserId,
    secret: Seq<char>,
    lifetime: i64,
    now: i64,
    r: Result<String, AppError>,
) -> bool {
    let claims = claims_at(user_id, lifetime, now);
    if !expiry_fits(lifetime, now) {
        r matches Err(e) && e is InternalServerError
    } else {
        match hs256_token(claims.sub, claims.exp, claims.iat, secret) {
            Some(t) => if compact_form(t) && reads_back(t, secret, claims) {
                r matches Ok(s) && s@ == t
            } else {
                r matches Err(e) && e is InternalServerError
            },
            None => r matches Err(AppError::JwtError(TokenError::Rejected(_))),
        }
    }
}

/// Issues a token for `user_id` as of `now`, valid for `expiration_seconds`.
pub fn create_jwt_at(user_id: UserId, secret: &str, expiration_seconds: i64, now: i64) -> (r: Result<
    String,
    AppError,
>)
    ensures
        issued_at(user_id, secret@, expiration_seconds, now, r),
{
    let exp = match now.checked_add(expiration_seconds) {
        Some(exp) => exp,
        None => {
            return Err(AppError::InternalServerError("token expiry out of range".to_owned()));
        },
    };
    let claims = Claims { sub: user_id, exp, iat: now };
    let token = match encode_hs256(&claims, secret) {
        Ok(token) => token,
        Err(e) => { return Err(AppError::JwtError(TokenError::Rejected(e))); },
    };
    let reads_back = match read_token(token.as_str(), secret) {
        Ok(raw) => exp >= 0 && raw.holds(&claims),
        Err(TokenError::Rejected(_)) => exp < 0,
        Err(_) => false,
    };
    if reads_back && is_compact(token.as_str()) {
        Ok(token)
    } else {
        Err(AppError::InternalServerError("issued token does not read back".to_owned()))
    }
}

/// Validates a token as of `now`.
pub fn validate_jwt_at(token: &str, secret: &str, now: i64) -> (r: Result<Claims, AppError>)
    ensures
        validated_at(token@, secret@, now, r),
{
    check_claims(read_token(token, secret), now)
}

/// Issues a token for `user_id`, valid for `expiration_seconds` from now:
/// what `create_jwt_at` does at some reading of the clock.
pub fn create_jwt(user_id: UserId, secret: &str, expiration_seconds: i64) -> (r: Result<
    String,
    AppError,
>)
    ensures
        exists|now: i64| is_reading(now) && issued_at(user_id, secret@, expiration_seconds, now, r),
{
    let now = unix_now();
    create_jwt_at(user_id, secret, expiration_seconds, now)
}

/// Validates a token against the clock: what `validate_jwt_at` does at some
/// reading of the clock.
pub fn validate_jwt(token: &str, secret: &str) -> (r: Result<Claims, AppError>)
    ensures
        exists|now: i64| is_reading(now) && validated_at(token@, secret@, now, r),
{
    let now = unix_now();
    validate_jwt_at(token, secret, now)
}

/// An issued token is in compact form and its header names HS256; where
/// its expiry does not lie before the Unix epoch, its signature is the one
/// that the secret gives for header and payload.
pub proof fn lemma_issued_token_is_compact(
    user_id: UserId,
    secret: Seq<char>,
    lifetime: i64,
    now: i64,
    issued: Result<String, AppError>,
)
    requires
        issued_at(user_id, secret, lifetime, now, issued),
        issued is Ok,
    ensures
        compact_form(issued->Ok_0@),
        header_algorithm(issued->Ok_0@) == Some("HS256"@),
        0 <= now + lifetime ==> hs256_signature(signed_part(issued->Ok_0@), secret) == Some(
            signature_part(issued->Ok_0@),
        ),
{
}

/// A token is accepted for as long as it lives: validated under the secret
/// it was issued with, at any instant before its expiry and so right after
/// issuance, it yields the claims it was issued with.
///
/// The expiry must not lie before the Unix epoch.
pub proof fn lemma_issued_token_validates(
    user_id: UserId,
    secret: Seq<char>,
    lifetime: i64,
    now: i64,
    at: i64,
    issued: Result<String, AppError>,
    validated: Result<Claims, AppError>,
)
    requires
        issued_at(user_id, secret, lifetime, now, issued),
        issued is Ok,
        validated_at(issued->Ok_0@, secret, at, validated),
        0 <= now + lifetime,
        at < now + lifetime,
    ensures
        validated == Ok::<Claims, AppError>(claims_at(user_id, lifetime, now)),
        validated->Ok_0.sub == user_id,
{
}

/// A token is refused once its time is up: validated at any instant from
/// `now + lifetime` on, it fails with a token error.
pub proof fn lemma_issued_token_expires(
    user_id: UserId,
    secret: Seq<char>,
    lifetime: i64,
    now: i64,
    at: i64,
    issued: Result<String, AppError>,
    validated: Result<Claims, AppError>,
)
    requires
        issued_at(user_id, secret, lifetime, now, issued),
        issued is Ok,
        validated_at(issued->Ok_0@, secret, at, validated),
        at >= now + lifetime,
    ensures
        validated matches Err(e) && e is JwtError,
{
}

/// For every token, secret and instant, validation succeeds only for a
/// well-framed token whose header names HS256 and whose signature is the
/// one that the secret gives for what is signed, and only strictly before
/// the expiry that the token carries; it fails with nothing but a token
/// error.
pub proof fn lemma_valid_only_if(
    token: Seq<char>,
    secret: Seq<char>,
    now: i64,
    validated: Result<Claims, AppError>,
)
    requires
        validated_at(token, secret, now, validated),
    ensures
        validated matches Ok(claims) ==> {
            &&& well_framed(token)
            &&& header_algorithm(token) == Some("HS256"@)
            &&& hs256_signature(signed_part(token), secret) == Some(signature_part(token))
            &&& hs256_claims(token, secret) == Some(claims.raw())
            &&& now < claims.exp
        },
        validated matches Err(e) ==> e is JwtError,
{
}

/// Of the tokens that share what is signed, at most one signature is
/// accepted under a secret: a token that differs from a valid one in its
/// signature alone is not valid.
pub proof fn lemma_other_signature_fails(
    token: Seq<char>,
    forged: Seq<char>,
    secret: Seq<char>,
    now: i64,
    at: i64,
)
    requires
        verdict_at(token, secret, now) is Valid,
        signed_part(forged) == signed_part(token),
        signature_part(forged) != signature_part(token),
    ensures
        !(verdict_at(forged, secret, at) is Valid),
{
}

/// Another payload: a token that carries the signature of a valid one over
/// any other header or payload is not valid, also where the new text reads
/// as well-formed claims, unless the secret gives the new text the
/// signature of the old: a collision of the signing function.
pub proof fn lemma_other_payload_fails(
    token: Seq<char>,
    forged: Seq<char>,
    secret: Seq<char>,
    now: i64,
    at: i64,
)
    requires
        verdict_at(token, secret, now) is Valid,
        signature_part(forged) == signature_part(token),
        hs256_signature(signed_part(forged), secret) != hs256_signature(
            signed_part(token),
            secret,
        ),
    ensures
        !(verdict_at(forged, secret, at) is Valid),
{
}

/// Tampering with the signature: a token that differs from a valid one in
/// any one character after the last dot is not valid.
pub proof fn lemma_tampered_signature_fails(
    token: Seq<char>,
    secret: Seq<char>,
    now: i64,
    at: i64,
    i: int,
    c: char,
)
    requires
        verdict_at(token, secret, now) is Valid,
        last_dot(token) < i < token.len(),
        c != token[i],
    ensures
        !(verdict_at(token.update(i, c), secret, at) is Valid),
{
    let forged = token.update(i, c);
    lemma_last_dot_bounds(token);
    lemma_replace_char(token, i, c);
    if c != '.' {
        assert(signed_part(forged) =~= signed_part(token));
        assert(signature_part(forged)[i - last_dot(token) - 1] == c);
        assert(signature_part(token)[i - last_dot(token) - 1] == token[i]);
    }
}

/// Tampering with what is signed: a token that differs from a valid one in
/// any one character before the last dot, in header or payload, is not
/// valid, unless the secret gives the new text the signature of the old: a
/// collision of the signing function.
pub proof fn lemma_tampered_payload_fails(
    token: Seq<char>,
    secret: Seq<char>,
    now: i64,
    at: i64,
    i: int,
    c: char,
)
    requires
        verdict_at(token, secret, now) is Valid,
        0 <= i < last_dot(token),
        c != token[i],
        hs256_signature(signed_part(token.update(i, c)), secret) != hs256_signature(
            signed_part(token),
            secret,
        ),
    ensures
        !(verdict_at(token.update(i, c), secret, at) is Valid),
{
    let forged = token.update(i, c);
    lemma_last_dot_bounds(token);
    lemma_replace_char(token, i, c);
    if c != '.' {
        assert(signature_part(forged) =~= signature_part(token));
    }
}

/// Another secret: a token that is valid under one secret is not valid
/// under a second, unless the second gives what is signed the same
/// signature.
pub proof fn lemma_other_secret_fails(
    token: Seq<char>,
    secret: Seq<char>,
    other: Seq<char>,
    now: i64,
    at: i64,
)
    requires
        verdict_at(token, secret, now) is Valid,
        hs256_signature(signed_part(token), other) != hs256_signature(signed_part(token), secret),
    ensures
        !(verdict_at(token, other, at) is Valid),
{
}

/// A token without a signature is not valid, whatever else it holds: not
/// where the signature is empty, and not where the text has fewer or more
/// than three parts.
pub proof fn lemma_unsigned_token_fails(token: Seq<char>, secret: Seq<char>, now: i64)
    requires
        dot_count(token) != 2 || signature_part(token).len() == 0,
    ensures
        !(verdict_at(token, secret, now) is Valid),
{
    lemma_last_dot_bounds(token);
}

} // verus!
