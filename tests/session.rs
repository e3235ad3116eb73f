use simposio::auth::{AuthService, TOKEN_KEY, USER_KEY};

#[test]
fn new_session_is_signed_out() {
    let session = AuthService::new();
    assert!(!session.is_authenticated());
    assert_eq!(session.get_token(), None);
    assert!(session.get_user_info().is_none());
}

#[test]
fn set_token_signs_in() {
    let mut session = AuthService::new();
    session.set_token(String::from("abc"));
    assert!(session.is_authenticated());
    assert_eq!(session.get_token(), Some(String::from("abc")));
}

#[test]
fn set_token_overwrites() {
    let mut session = AuthService::new();
    session.set_token(String::from("abc"));
    session.set_token(String::from("def"));
    assert_eq!(session.get_token(), Some(String::from("def")));
}

#[test]
fn presence_alone_signs_in() {
    let mut session = AuthService::new();
    session.set_token(String::new());
    assert!(session.is_authenticated());
}

#[test]
fn remove_token_signs_out_and_is_idempotent() {
    let mut session = AuthService::new();
    session.set_token(String::from("abc"));
    session.remove_token();
    assert!(!session.is_authenticated());
    session.remove_token();
    assert!(!session.is_authenticated());
    assert_eq!(session.get_token(), None);
}

#[test]
fn user_info_is_kept_until_logout() {
    let mut session = AuthService::new();
    session.set_token(String::from("abc"));
    let record = serde_json::Value::String(String::from("ana@example.com"));
    session.set_user_info(record.clone());
    assert_eq!(session.get_user_info(), Some(&record));
    session.remove_token();
    assert_eq!(session.get_user_info(), Some(&record));
    session.logout();
    assert!(!session.is_authenticated());
    assert!(session.get_user_info().is_none());
}

#[test]
fn restore_takes_the_persisted_values() {
    let session = AuthService::restore(Some(String::from("tok")), None);
    assert!(session.is_authenticated());
    assert_eq!(session.get_token(), Some(String::from("tok")));
    let empty = AuthService::restore(None, Some(serde_json::Value::Bool(true)));
    assert!(!empty.is_authenticated());
    assert_eq!(empty.get_user_info(), Some(&serde_json::Value::Bool(true)));
}

#[test]
fn storage_keys() {
    assert_eq!(TOKEN_KEY, "auth_token");
    assert_eq!(USER_KEY, "current_user");
}
