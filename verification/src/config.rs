//! Process-wide configuration, built once at startup and read-only afterwards.

use vstd::prelude::*;
use vstd::string::*;
use vstd::utf8::*;

verus! {

/// Seconds a token lives when the configuration names no lifetime.
pub const DEFAULT_JWT_EXPIRATION_SECONDS: i64 = 3600;

/// What every request handler reads and none changes.
#[derive(Debug, Clone)]
pub struct AppConfig {
    pub database_url: String,
    /// The key that tokens are signed and checked with.
    pub jwt_secret: String,
    /// Seconds that a token lives.
    pub jwt_expiration_seconds: i64,
}

/// Why the configuration could not be built.
#[derive(Debug)]
pub enum ConfigError {
    /// A variable that has no default is not set. Holds the variable's name.
    MissingVar(String),
    /// A variable is set to text that cannot be used. Holds the variable's
    /// name and the reason.
    InvalidValue(String, String),
    /// The user directory could not be reached. Holds the cause as text.
    DatabaseConnection(String),
}

/// A decimal digit.
pub open spec fn is_digit(c: char) -> bool {
    '0' <= c && c <= '9'
}

/// The number that a run of decimal digits writes.
pub open spec fn digits_value(s: Seq<char>) -> int
    decreases s.len(),
{
    if s.len() == 0 {
        0
    } else {
        10 * digits_value(s.drop_last()) + (s.last() as int - '0' as int)
    }
}

/// The natural number that the text writes: one decimal digit or more and
/// nothing else.
pub open spec fn natural_value(s: Seq<char>) -> Option<int> {
    if s.len() > 0 && forall|i: int| 0 <= i < s.len() ==> is_digit(#[trigger] s[i]) {
        Some(digits_value(s))
    } else {
        None
    }
}

/// The integer that the text writes in decimal: an optional sign, then one
/// digit or more and nothing else.
pub open spec fn decimal_value(s: Seq<char>) -> Option<int> {
    if s.len() > 0 && s[0] == '-' {
        match natural_value(s.drop_first()) {
            Some(v) => Some(-v),
            None => None,
        }
    } else if s.len() > 0 && s[0] == '+' {
        natural_value(s.drop_first())
    } else {
        natural_value(s)
    }
}

/// The integer that the text writes, where it fits in 64 bits.
pub open spec fn decimal_i64(s: Seq<char>) -> Option<i64> {
    match decimal_value(s) {
        Some(v) => if i64::MIN <= v <= i64::MAX {
            Some(v as i64)
        } else {
            None
        },
        None => None,
    }
}

const ZERO: u8 = 48;

const NINE: u8 = 57;

const PLUS: u8 = 43;

const MINUS: u8 = 45;

/// The magnitude of the least number of 64 bits, 2^63. No number of 64
/// bits has a larger one.
const MAGNITUDE_END: u128 = 0x8000_0000_0000_0000;

/// Reads a decimal integer of 64 bits: an optional sign followed by digits
/// only. `None` for any other text and for a number that does not fit.
pub fn parse_i64(text: &str) -> (r: Option<i64>)
    ensures
        r == decimal_i64(text@),
{
    if !text.is_ascii() {
        proof {
            let s = text@;
            let j = choose|j: int| 0 <= j < s.len() && !('\0' <= s[j] && s[j] <= '\u{7f}');
            assert(!is_digit(s[j]) && s[j] != '+' && s[j] != '-');
            if j > 0 {
                assert(s.drop_first()[j - 1] == s[j]);
            }
        }
        return None;
    }
    let n = text.as_bytes().len();
    proof {
        is_ascii_chars_encode_utf8(text@);
    }
    if n == 0 {
        return None;
    }
    let first = text.get_ascii(0);
    let negative = first == MINUS;
    let start: usize = if first == MINUS || first == PLUS {
        1
    } else {
        0
    };
    let ghost digits = text@.subrange(start as int, n as int);
    proof {
        if start == 1 {
            assert(digits =~= text@.drop_first());
        } else {
            assert(digits =~= text@);
        }
    }
    if start == n {
        return None;
    }
    let mut magnitude: u128 = 0;
    let mut too_large = false;
    let mut i: usize = start;
    while i < n
        invariant
            is_ascii(text),
            n == text@.len(),
            start <= i <= n,
            digits == text@.subrange(start as int, n as int),
            natural_value(digits) is None ==> decimal_value(text@) is None,
            natural_value(digits) matches Some(v) ==> decimal_value(text@) == Some(
                if negative {
                    -v
                } else {
                    v
                },
            ),
            forall|j: int| 0 <= j < i - start ==> is_digit(#[trigger] digits[j]),
            magnitude <= MAGNITUDE_END,
            !too_large ==> magnitude == digits_value(digits.subrange(0, i - start)),
            too_large ==> digits_value(digits.subrange(0, i - start)) > MAGNITUDE_END,
        decreases n - i,
    {
        let b = text.get_ascii(i);
        if b < ZERO || b > NINE {
            assert(!is_digit(digits[i - start]));
            return None;
        }
        proof {
            let next = digits.subrange(0, i - start + 1);
            assert(next.drop_last() =~= digits.subrange(0, i - start));
            assert(next.last() == text@[i as int]);
        }
        if !too_large {
            let grown: u128 = magnitude * 10 + (b - ZERO) as u128;
            if grown > MAGNITUDE_END {
                too_large = true;
            } else {
                magnitude = grown;
            }
        }
        i += 1;
    }
    proof {
        assert(digits.subrange(0, n - start) =~= digits);
    }
    if too_large {
        None
    } else if negative {
        if magnitude == MAGNITUDE_END {
            Some(i64::MIN)
        } else {
            Some(-(magnitude as i64))
        }
    } else if magnitude == MAGNITUDE_END {
        None
    } else {
        Some(magnitude as i64)
    }
}

/// `str::parse::<i64>`, asked only for the words in which it refuses a
/// text. Nothing is stated of them; they are empty where it does not refuse.
#[verifier::external_body]
fn refusal_of(text: &str) -> String {
    match text.parse::<i64>() {
        Ok(_) => String::new(),
        Err(e) => e.to_string(),
    }
}

/// The token lifetime that the variable asks for: the default where it is
/// not set, else the number it writes, if it writes one.
pub open spec fn expiration_of(text: Option<String>) -> Option<i64> {
    match text {
        None => Some(DEFAULT_JWT_EXPIRATION_SECONDS),
        Some(t) => decimal_i64(t@),
    }
}

/// What the three variables make: the first that is missing or unusable
/// decides the error, in the order database, secret, lifetime.
pub open spec fn configured(
    database_url: Option<String>,
    jwt_secret: Option<String>,
    jwt_expiration_seconds: Option<String>,
    r: Result<AppConfig, ConfigError>,
) -> bool {
    match (database_url, jwt_secret) {
        (None, _) => r matches Err(ConfigError::MissingVar(name)) && name@ == "DATABASE_URL"@,
        (Some(_), None) => r matches Err(ConfigError::MissingVar(name)) && name@ == "JWT_SECRET"@,
        (Some(url), Some(secret)) => match expiration_of(jwt_expiration_seconds) {
            Some(seconds) => r == Ok::<AppConfig, ConfigError>(
                AppConfig {
                    database_url: url,
                    jwt_secret: secret,
                    jwt_expiration_seconds: seconds,
                },
            ),
            None => r matches Err(ConfigError::InvalidValue(name, _)) && name@
                == "JWT_EXPIRATION_SECONDS"@,
        },
    }
}

impl AppConfig {
    /// Builds the configuration from the values of the environment
    /// variables `DATABASE_URL`, `JWT_SECRET` and `JWT_EXPIRATION_SECONDS`,
    /// each `None` where the variable is not set.
    pub fn from_env(
        database_url: Option<String>,
        jwt_secret: Option<String>,
        jwt_expiration_seconds: Option<String>,
    ) -> (r: Result<AppConfig, ConfigError>)
        ensures
            configured(database_url, jwt_secret, jwt_expiration_seconds, r),
    {
        let database_url = match database_url {
            Some(url) => url,
            None => { return Err(ConfigError::MissingVar("DATABASE_URL".to_owned())); },
        };
        let jwt_secret = match jwt_secret {
            Some(secret) => secret,
            None => { return Err(ConfigError::MissingVar("JWT_SECRET".to_owned())); },
        };
        let jwt_expiration_seconds = match jwt_expiration_seconds {
            None => DEFAULT_JWT_EXPIRATION_SECONDS,
            Some(text) => match parse_i64(text.as_str()) {
                Some(seconds) => seconds,
                None => {
                    return Err(
                        ConfigError::InvalidValue(
                            "JWT_EXPIRATION_SECONDS".to_owned(),
                            refusal_of(text.as_str()),
                        ),
                    );
                },
            },
        };
        Ok(AppConfig { database_url, jwt_secret, jwt_expiration_seconds })
    }
}

} // verus!
