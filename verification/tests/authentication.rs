use sms_auth::auth::jwt::create_jwt_at;
use sms_auth::auth::middleware::{bearer_token, AuthRequired};
use sms_auth::errors::AppError;
use sms_auth::models::user::User;

const SECRET: &str = "header-secret";
const NOW: i64 = 1_700_000_000;

fn alice() -> User {
    User {
        id: 0xA11CE,
        username: "alice".to_string(),
        password_hash: "$2b$12$unused".to_string(),
    }
}

fn rejection_seen_by_client(e: AppError) -> (u16, String) {
    let response = e.into_response();
    (response.status, response.message)
}

#[test]
fn bearer_header_yields_its_token() {
    assert_eq!(bearer_token("Bearer abc.def.ghi"), Some("abc.def.ghi"));
    assert_eq!(bearer_token("Bearer x y"), Some("x y"));
}

#[test]
fn bearer_scheme_is_read_in_any_case() {
    assert_eq!(bearer_token("bearer abc"), Some("abc"));
    assert_eq!(bearer_token("BEARER abc"), Some("abc"));
    assert_eq!(bearer_token("bEaReR abc"), Some("abc"));
}

#[test]
fn blanks_before_the_token_are_dropped() {
    assert_eq!(bearer_token("Bearer    abc"), Some("abc"));
    assert_eq!(bearer_token("Bearer \t abc "), Some("abc "));
    assert_eq!(bearer_token("Bearer "), Some(""));
    assert_eq!(bearer_token("Bearer    "), Some(""));
}

#[test]
fn header_of_another_form_yields_nothing() {
    for header in [
        "",
        "Bearer",
        "Beare",
        "Bearerabc",
        "Bearer\tabc",
        "Basic dXNlcjpwYXNz",
        "Token abc",
        " Bearer abc",
        "abc",
        "Bearer t\u{e9}l\u{e9}",
        "Bearer abc\u{7f}",
        "Bearer abc\n",
        "B\u{e9}arer abc",
    ] {
        assert_eq!(bearer_token(header), None, "{:?}", header);
    }
}

#[test]
fn gate_passes_a_valid_token() {
    let user = alice();
    let token = create_jwt_at(user.id, SECRET, 3600, NOW).unwrap();
    let header = format!("Bearer {}", token);
    let subject = AuthRequired::subject_at(Some(&header), SECRET, NOW + 10).unwrap();
    assert_eq!(subject, user.id);
    let id = user.id;
    let passed = AuthRequired::confirm(subject, Ok(Some(user))).unwrap();
    assert_eq!(passed.0.user_id, id);
}

#[test]
fn gate_rejects_all_four_alike() {
    let user = alice();
    let token = create_jwt_at(user.id, SECRET, 3600, NOW).unwrap();
    let header = format!("Bearer {}", token);

    let no_header = AuthRequired::subject_at(None, SECRET, NOW).unwrap_err();
    let no_prefix = AuthRequired::subject_at(Some(&token), SECRET, NOW).unwrap_err();
    let expired = AuthRequired::subject_at(Some(&header), SECRET, NOW + 3601).unwrap_err();
    let subject = AuthRequired::subject_at(Some(&header), SECRET, NOW).unwrap();
    let unknown = AuthRequired::confirm(subject, Ok(None)).unwrap_err();

    let expected = (401, "Authentication required".to_string());
    for rejection in [no_header, no_prefix, expired, unknown] {
        assert!(matches!(rejection, AppError::Unauthorized));
        assert_eq!(rejection_seen_by_client(rejection), expected);
    }
}

#[test]
fn gate_rejects_other_bad_tokens_the_same_way() {
    let token = create_jwt_at(alice().id, SECRET, 3600, NOW).unwrap();
    let other_secret = format!("Bearer {}", create_jwt_at(alice().id, "other", 3600, NOW).unwrap());
    let cut = format!("Bearer {}", &token[..token.len() - 1]);
    let basic = "Basic dXNlcjpwYXNz".to_string();
    let empty = "Bearer ".to_string();
    for header in [other_secret, cut, basic, empty] {
        assert!(matches!(
            AuthRequired::subject_at(Some(&header), SECRET, NOW),
            Err(AppError::Unauthorized)
        ));
    }
}

#[test]
fn gate_rejects_a_failed_lookup() {
    for cause in [
        AppError::DatabaseError("down".to_string()),
        AppError::DatabaseError("timed out".to_string()),
        AppError::InternalServerError("pool closed".to_string()),
    ] {
        let rejection = AuthRequired::confirm(alice().id, Err(cause)).unwrap_err();
        assert!(matches!(rejection, AppError::Unauthorized));
        assert_eq!(
            rejection_seen_by_client(rejection),
            (401, "Authentication required".to_string())
        );
    }
}

#[test]
fn gate_reads_the_clock() {
    let user = alice();
    let fresh = format!("Bearer {}", sms_auth::auth::jwt::create_jwt(user.id, SECRET, 3600).unwrap());
    assert_eq!(AuthRequired::subject(Some(&fresh), SECRET).unwrap(), user.id);
    let stale = format!("Bearer {}", create_jwt_at(user.id, SECRET, 3600, 1_000_000).unwrap());
    assert!(matches!(AuthRequired::subject(Some(&stale), SECRET), Err(AppError::Unauthorized)));
    assert!(matches!(AuthRequired::subject(None, SECRET), Err(AppError::Unauthorized)));
}

#[test]
fn issued_token_passes_through_the_header_unchanged() {
    let token = create_jwt_at(alice().id, SECRET, 3600, NOW).unwrap();
    let header = format!("Bearer {}", token);
    assert_eq!(bearer_token(&header), Some(token.as_str()));
    assert_eq!(AuthRequired::subject_at(Some(&header), SECRET, NOW + 3599).unwrap(), alice().id);
    for at in [NOW + 3600, NOW + 3601, i64::MAX] {
        assert!(matches!(
            AuthRequired::subject_at(Some(&header), SECRET, at),
            Err(AppError::Unauthorized)
        ));
    }
}
