use actix_web::web::Data;
use user_routes::auth::User;
use user_routes::routes::users::get_user_me;
use user_routes::routes::{status_of, ApiResponse};

fn user(token: &str, name: &str) -> User {
    User::new(token.to_string(), name.to_string())
}

#[test]
fn new_keeps_both_fields() {
    let alice = user("abc123", "alice");
    assert_eq!(alice.token, "abc123");
    assert_eq!(alice.name, "alice");
}

#[test]
fn redact_blanks_the_token_and_keeps_the_name() {
    let redacted = user("abc123", "alice").redact();
    assert_eq!(redacted.token, "");
    assert_eq!(redacted.name, "alice");
    assert_eq!(redacted, User { token: String::new(), name: "alice".to_string() });
}

#[test]
fn redact_twice_is_redact_once() {
    let once = user("abc123", "alice").redact();
    let twice = once.clone().redact();
    assert_eq!(twice, once);
}

#[test]
fn redact_of_an_empty_token_changes_nothing() {
    let anonymous = user("", "bob");
    assert_eq!(anonymous.clone().redact(), anonymous);
}

#[test]
fn redact_keeps_an_empty_name() {
    let redacted = user("t0k3n", "").redact();
    assert_eq!(redacted, user("", ""));
}

#[test]
fn redact_keeps_a_name_that_is_not_ascii() {
    let redacted = user("s3cr3t", "Zoë 山田").redact();
    assert_eq!(redacted.token, "");
    assert_eq!(redacted.name, "Zoë 山田");
}

#[test]
fn redact_does_not_touch_the_callers_copy() {
    let alice = user("abc123", "alice");
    let _ = alice.clone().redact();
    assert_eq!(alice.token, "abc123");
}

#[test]
fn get_user_me_answers_the_redacted_user() {
    let result = get_user_me(user("abc123", "alice"), Data::new(()));
    assert_eq!(status_of(&result), 200);
    let response = result.expect("the profile route does not fail");
    assert_eq!(response.status, 200);
    assert_eq!(response.data, Some(user("", "alice")));
    assert!(response.removed_cookies.is_empty());
}

#[test]
fn get_user_me_is_the_bare_success_with_a_body() {
    let response = get_user_me(user("abc123", "alice"), Data::new(0u8)).unwrap();
    let expected = ApiResponse {
        status: 200,
        data: Some(User { token: String::new(), name: "alice".to_string() }),
        removed_cookies: Vec::new(),
    };
    assert_eq!(response, expected);
}

#[test]
fn get_user_me_does_not_depend_on_the_token() {
    let one = get_user_me(user("abc123", "alice"), Data::new(()));
    let other = get_user_me(user("a-much-longer-token-0987654321", "alice"), Data::new(()));
    assert_eq!(one, other);
    let body = one.unwrap().data.unwrap();
    assert!(body.token.is_empty());
}

#[test]
fn get_user_me_with_an_empty_token() {
    let response = get_user_me(user("", "carol"), Data::new(())).unwrap();
    assert_eq!(response.status, 200);
    assert_eq!(response.data, Some(user("", "carol")));
}

#[test]
fn get_user_me_takes_any_shared_handle() {
    let pool: Data<Vec<String>> = Data::new(vec!["redis://cache".to_string()]);
    let kept = pool.clone();
    let response = get_user_me(user("abc123", "dave"), pool).unwrap();
    assert_eq!(response.data.unwrap().name, "dave");
    assert_eq!(kept.get_ref().len(), 1);
}
