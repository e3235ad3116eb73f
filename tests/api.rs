use simposio::api::{
    decimal_text, Action, ApiError, ApiService, HttpMethod, LOCAL_BASE_URL, PRODUCTION_BASE_URL,
    UNAUTHORIZED_MESSAGE,
};

#[test]
fn base_url_follows_the_build() {
    assert_eq!(ApiService::get_base_url(true), "http://localhost:8000");
    assert_eq!(
        ApiService::get_base_url(false),
        "https://apisimposiorevsalud.univsalud.online"
    );
    assert_eq!(ApiService::get_base_url(true), LOCAL_BASE_URL);
    assert_eq!(ApiService::get_base_url(false), PRODUCTION_BASE_URL);
}

#[test]
fn urls_of_every_action() {
    let base = "http://h";
    let cases = [
        (Action::Login, "http://h/auth/login"),
        (Action::Register, "http://h/auth/register"),
        (Action::UpdateUser, "http://h/user/update"),
        (Action::GetUsers, "http://h/admin/users"),
        (Action::GetUser, "http://h/admin/users/42"),
        (Action::AdminUpdateUser, "http://h/admin/users/42"),
        (Action::DeleteUser, "http://h/admin/users/delete"),
        (Action::HorizontalCert, "http://h/certificates/horizontal"),
        (Action::VerticalCert, "http://h/certificates/vertical"),
    ];
    for (action, expected) in cases {
        assert_eq!(ApiService::url(base, action, "42"), expected);
    }
}

#[test]
fn methods_and_bodies() {
    assert_eq!(Action::Login.method(), HttpMethod::Post);
    assert_eq!(Action::UpdateUser.method(), HttpMethod::Put);
    assert_eq!(Action::GetUsers.method(), HttpMethod::Get);
    assert_eq!(Action::DeleteUser.method(), HttpMethod::Delete);
    assert_eq!(Action::VerticalCert.method(), HttpMethod::Post);
    assert!(Action::Login.has_json_body());
    assert!(Action::DeleteUser.has_json_body());
    assert!(!Action::GetUsers.has_json_body());
    assert!(!Action::HorizontalCert.has_json_body());
}

#[test]
fn status_classes() {
    assert_eq!(ApiService::check_status(Action::GetUsers, 200), Ok(()));
    assert_eq!(ApiService::check_status(Action::GetUsers, 204), Ok(()));
    assert_eq!(ApiService::check_status(Action::GetUsers, 299), Ok(()));
    assert_eq!(
        ApiService::check_status(Action::GetUsers, 401),
        Err(ApiError::Unauthorized)
    );
    assert_eq!(
        ApiService::check_status(Action::GetUsers, 500),
        Err(ApiError::Rejected { action: Action::GetUsers, status: 500 })
    );
    assert_eq!(
        ApiService::check_status(Action::Login, 199),
        Err(ApiError::Rejected { action: Action::Login, status: 199 })
    );
    assert_eq!(
        ApiService::check_status(Action::Login, 300),
        Err(ApiError::Rejected { action: Action::Login, status: 300 })
    );
}

#[test]
fn decimal_text_writes_numbers() {
    assert_eq!(decimal_text(0), "0");
    assert_eq!(decimal_text(7), "7");
    assert_eq!(decimal_text(10), "10");
    assert_eq!(decimal_text(404), "404");
    assert_eq!(decimal_text(65535), "65535");
}

#[test]
fn error_messages() {
    assert_eq!(
        ApiError::Rejected { action: Action::Login, status: 500 }.message(),
        "Login failed: 500"
    );
    assert_eq!(
        ApiError::Rejected { action: Action::Register, status: 409 }.message(),
        "Registration failed: 409"
    );
    assert_eq!(
        ApiError::Rejected { action: Action::GetUsers, status: 403 }.message(),
        "Failed to get users: 403"
    );
    assert_eq!(
        ApiError::Rejected { action: Action::GetUser, status: 404 }.message(),
        "Failed to get user: 404"
    );
    assert_eq!(
        ApiError::Rejected { action: Action::DeleteUser, status: 400 }.message(),
        "Delete failed: 400"
    );
    assert_eq!(
        ApiError::Rejected { action: Action::AdminUpdateUser, status: 422 }.message(),
        "Update failed: 422"
    );
    assert_eq!(
        ApiError::Rejected { action: Action::VerticalCert, status: 503 }.message(),
        "Certificate generation failed: 503"
    );
    assert_eq!(ApiError::Unauthorized.message(), UNAUTHORIZED_MESSAGE);
    assert!(ApiError::Unauthorized.message().starts_with("No autorizado"));
    assert_eq!(
        ApiError::Serialization(String::from("bad")).message(),
        "Failed to serialize request: bad"
    );
    assert_eq!(
        ApiError::Network(String::from("refused")).message(),
        "Request failed: refused"
    );
    assert_eq!(
        ApiError::Parse(String::from("eof")).message(),
        "Failed to parse response: eof"
    );
}

#[test]
fn completion_of_fixed_replies() {
    assert_eq!(
        ApiService::completion(Action::UpdateUser, 200),
        Ok(String::from("Profile updated successfully"))
    );
    assert_eq!(
        ApiService::completion(Action::AdminUpdateUser, 200),
        Ok(String::from("User updated successfully"))
    );
    assert_eq!(
        ApiService::completion(Action::DeleteUser, 204),
        Ok(String::from("User deleted successfully"))
    );
    assert_eq!(
        ApiService::completion(Action::HorizontalCert, 201),
        Ok(String::from("Horizontal certificate generated"))
    );
    assert_eq!(
        ApiService::completion(Action::VerticalCert, 200),
        Ok(String::from("Vertical certificate generated"))
    );
    assert_eq!(
        ApiService::completion(Action::VerticalCert, 401),
        Err(ApiError::Unauthorized)
    );
    assert_eq!(
        ApiService::completion(Action::DeleteUser, 500),
        Err(ApiError::Rejected { action: Action::DeleteUser, status: 500 })
    );
}

#[test]
fn login_response_reads_the_token() {
    assert_eq!(
        ApiService::login_response(200, r#"{"token":"abc.def"}"#),
        Ok(String::from("abc.def"))
    );
    assert_eq!(
        ApiService::login_response(200, r#"{"user":"x"}"#),
        Ok(String::new())
    );
    assert_eq!(
        ApiService::login_response(200, r#"{"token":12}"#),
        Ok(String::new())
    );
    assert_eq!(ApiService::login_response(200, r#"["token"]"#), Ok(String::new()));
    assert!(matches!(
        ApiService::login_response(200, "not json"),
        Err(ApiError::Parse(_))
    ));
    assert_eq!(
        ApiService::login_response(401, r#"{"token":"abc"}"#),
        Err(ApiError::Unauthorized)
    );
    assert_eq!(
        ApiService::login_response(500, "not json"),
        Err(ApiError::Rejected { action: Action::Login, status: 500 })
    );
}

#[test]
fn register_response_reads_the_message() {
    assert_eq!(
        ApiService::register_response(201, r#"{"message":"Usuario creado"}"#),
        Ok(String::from("Usuario creado"))
    );
    assert_eq!(
        ApiService::register_response(200, "{}"),
        Ok(String::from("Success"))
    );
    assert!(matches!(
        ApiService::register_response(200, ""),
        Err(ApiError::Parse(_))
    ));
    assert_eq!(
        ApiService::register_response(409, "{}"),
        Err(ApiError::Rejected { action: Action::Register, status: 409 })
    );
}

#[test]
fn results_from_read_members() {
    assert_eq!(
        ApiService::login_result(200, Ok(Some(String::from("t")))),
        Ok(String::from("t"))
    );
    assert_eq!(ApiService::login_result(200, Ok(None)), Ok(String::new()));
    assert_eq!(
        ApiService::login_result(200, Err(String::from("eof"))),
        Err(ApiError::Parse(String::from("eof")))
    );
    assert_eq!(
        ApiService::login_result(401, Ok(Some(String::from("t")))),
        Err(ApiError::Unauthorized)
    );
    assert_eq!(
        ApiService::register_result(200, Ok(None)),
        Ok(String::from("Success"))
    );
    assert_eq!(
        ApiService::register_result(200, Ok(Some(String::from("hecho")))),
        Ok(String::from("hecho"))
    );
    assert_eq!(
        ApiService::register_result(502, Ok(None)),
        Err(ApiError::Rejected { action: Action::Register, status: 502 })
    );
}

#[test]
fn session_calls_carry_the_token() {
    assert_eq!(ApiService::authorization("abc"), "Bearer abc");
    assert!(!Action::Login.needs_session());
    assert!(!Action::Register.needs_session());
    assert!(Action::GetUsers.needs_session());
    assert!(Action::HorizontalCert.needs_session());
}

#[test]
fn completion_of_data_calls_is_empty() {
    assert_eq!(ApiService::completion(Action::GetUsers, 200), Ok(String::new()));
    assert_eq!(
        ApiService::completion(Action::Login, 403),
        Err(ApiError::Rejected { action: Action::Login, status: 403 })
    );
}
