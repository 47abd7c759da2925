use sms_auth::config::{parse_i64, AppConfig, ConfigError, DEFAULT_JWT_EXPIRATION_SECONDS};

fn some(text: &str) -> Option<String> {
    Some(text.to_string())
}

#[test]
fn all_three_variables_make_a_configuration() {
    let config = AppConfig::from_env(some("postgres://db"), some("s3cret"), some("120")).unwrap();
    assert_eq!(config.database_url, "postgres://db");
    assert_eq!(config.jwt_secret, "s3cret");
    assert_eq!(config.jwt_expiration_seconds, 120);
}

#[test]
fn lifetime_defaults_to_an_hour() {
    let config = AppConfig::from_env(some("postgres://db"), some("s3cret"), None).unwrap();
    assert_eq!(config.jwt_expiration_seconds, 3600);
    assert_eq!(DEFAULT_JWT_EXPIRATION_SECONDS, 3600);
}

#[test]
fn lifetime_is_read_as_a_signed_decimal() {
    for (text, seconds) in [
        ("0", 0),
        ("+5", 5),
        ("-5", -5),
        ("-0", 0),
        ("007", 7),
        ("9223372036854775807", i64::MAX),
        ("-9223372036854775808", i64::MIN),
    ] {
        let config = AppConfig::from_env(some("db"), some("k"), some(text)).unwrap();
        assert_eq!(config.jwt_expiration_seconds, seconds, "{:?}", text);
    }
}

#[test]
fn unusable_lifetime_is_an_invalid_value() {
    for text in [
        "",
        "+",
        "-",
        " 5",
        "5 ",
        "1h",
        "3_600",
        "0x10",
        "1.5",
        "--5",
        "+-5",
        "9223372036854775808",
        "-9223372036854775809",
        "\u{663}",
    ] {
        match AppConfig::from_env(some("db"), some("k"), some(text)) {
            Err(ConfigError::InvalidValue(name, reason)) => {
                assert_eq!(name, "JWT_EXPIRATION_SECONDS", "{:?}", text);
                assert!(!reason.is_empty());
            }
            _ => panic!("{:?} was not refused", text),
        }
    }
}

#[test]
fn missing_database_url_is_reported_first() {
    for (secret, lifetime) in [(None, None), (some("k"), some("x")), (None, some("60"))] {
        match AppConfig::from_env(None, secret, lifetime) {
            Err(ConfigError::MissingVar(name)) => assert_eq!(name, "DATABASE_URL"),
            _ => panic!("expected a missing variable"),
        }
    }
}

#[test]
fn missing_secret_is_reported_before_a_bad_lifetime() {
    for lifetime in [None, some("x"), some("60")] {
        match AppConfig::from_env(some("db"), None, lifetime) {
            Err(ConfigError::MissingVar(name)) => assert_eq!(name, "JWT_SECRET"),
            _ => panic!("expected a missing variable"),
        }
    }
}

#[test]
fn decimal_text_is_read_exactly() {
    assert_eq!(parse_i64("0"), Some(0));
    assert_eq!(parse_i64("3600"), Some(3600));
    assert_eq!(parse_i64("+42"), Some(42));
    assert_eq!(parse_i64("-42"), Some(-42));
    assert_eq!(parse_i64("-0"), Some(0));
    assert_eq!(parse_i64("000000000000000000000000000001"), Some(1));
    assert_eq!(parse_i64("9223372036854775807"), Some(i64::MAX));
    assert_eq!(parse_i64("-9223372036854775808"), Some(i64::MIN));
    assert_eq!(parse_i64("+9223372036854775808"), None);
    assert_eq!(parse_i64("-9223372036854775809"), None);
    assert_eq!(parse_i64("92233720368547758070"), None);
    assert_eq!(parse_i64("340282366920938463463374607431768211456"), None);
    assert_eq!(parse_i64("99999999999999999999999999999999999999999999999999"), None);
    for text in ["", "+", "-", "+-1", "1-", "1+1", " 1", "1 ", "1_0", "0x1", "1e3", "\u{661}", "1\u{e9}"] {
        assert_eq!(parse_i64(text), None, "{:?}", text);
    }
}

#[test]
fn decimal_text_is_read_as_the_standard_library_reads_it() {
    let alphabet = ['0', '1', '9', '+', '-', ' ', 'a', '\u{e9}'];
    let mut texts = vec![String::new()];
    let mut last = vec![String::new()];
    for _ in 0..4 {
        let mut next = Vec::new();
        for text in &last {
            for c in alphabet {
                next.push(format!("{}{}", text, c));
            }
        }
        texts.extend(next.iter().cloned());
        last = next;
    }
    for edge in [i64::MAX as i128, i64::MIN as i128, 0, 1 << 62] {
        for delta in -11..=11 {
            texts.push(format!("{}", edge + delta));
            texts.push(format!("+{}", edge + delta));
            texts.push(format!("{}0", edge + delta));
        }
    }
    assert!(texts.len() > 4000);
    for text in texts {
        assert_eq!(parse_i64(&text), text.parse::<i64>().ok(), "{:?}", text);
    }
}

#[test]
fn the_reason_is_the_standard_library_s() {
    for (text, reason) in [
        ("", "cannot parse integer from empty string"),
        ("1h", "invalid digit found in string"),
        ("-", "invalid digit found in string"),
        ("9223372036854775808", "number too large to fit in target type"),
        ("-9223372036854775809", "number too small to fit in target type"),
    ] {
        match AppConfig::from_env(some("db"), some("k"), some(text)) {
            Err(ConfigError::InvalidValue(_, given)) => assert_eq!(given, reason, "{:?}", text),
            _ => panic!("{:?} was not refused", text),
        }
    }
}
