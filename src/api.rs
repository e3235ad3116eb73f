//! The HTTP API as the client sees it: where each call goes, with which
//! method, and what its response means. Sending is the shell's part.
use vstd::prelude::*;
use crate::json::{json_string_member, read_string_member};

verus! {

/// The API server of a development build.
pub const LOCAL_BASE_URL: &'static str = "http://localhost:8000";

/// The API server of a release build.
pub const PRODUCTION_BASE_URL: &'static str = "https://apisimposiorevsalud.univsalud.online";

/// What the user reads when the server answers 401.
pub const UNAUTHORIZED_MESSAGE: &'static str = "No autorizado. Por favor, inicie sesión nuevamente.";

/// The calls that the client makes.
#[derive(Clone, Copy, Debug, PartialEq, Eq, Structural)]
pub enum Action {
    Login,
    Register,
    UpdateUser,
    GetUsers,
    GetUser,
    AdminUpdateUser,
    DeleteUser,
    HorizontalCert,
    VerticalCert,
}

#[derive(Clone, Copy, Debug, PartialEq, Eq, Structural)]
pub enum HttpMethod {
    Get,
    Post,
    Put,
    Delete,
}

/// Why a call failed.
#[derive(Clone, Debug, PartialEq, Eq)]
pub enum ApiError {
    /// The request body could not be encoded.
    Serialization(String),
    /// The request could not be sent, or no response came.
    Network(String),
    /// The response body could not be decoded.
    Parse(String),
    /// The server answered 401.
    Unauthorized,
    /// The server answered with another status outside 200 to 299.
    Rejected { action: Action, status: u16 },
}

/// A status that `Response::ok` accepts.
pub open spec fn is_success(status: u16) -> bool {
    200 <= status && status <= 299
}

/// The path of `action` under the base URL; `id` names the account where the
/// path holds one.
pub open spec fn path_of(action: Action, id: Seq<char>) -> Seq<char> {
    match action {
        Action::Login => "/auth/login"@,
        Action::Register => "/auth/register"@,
        Action::UpdateUser => "/user/update"@,
        Action::GetUsers => "/admin/users"@,
        Action::GetUser => "/admin/users/"@ + id,
        Action::AdminUpdateUser => "/admin/users/"@ + id,
        Action::DeleteUser => "/admin/users/delete"@,
        Action::HorizontalCert => "/certificates/horizontal"@,
        Action::VerticalCert => "/certificates/vertical"@,
    }
}

pub open spec fn method_of(action: Action) -> HttpMethod {
    match action {
        Action::Login | Action::Register | Action::HorizontalCert | Action::VerticalCert => HttpMethod::Post,
        Action::UpdateUser | Action::AdminUpdateUser => HttpMethod::Put,
        Action::GetUsers | Action::GetUser => HttpMethod::Get,
        Action::DeleteUser => HttpMethod::Delete,
    }
}

/// The calls whose request carries a JSON body.
pub open spec fn has_json_body(action: Action) -> bool {
    match action {
        Action::Login | Action::Register | Action::UpdateUser | Action::AdminUpdateUser
        | Action::DeleteUser => true,
        _ => false,
    }
}

/// The calls made on behalf of a signed-in user, which carry its token.
pub open spec fn needs_session(action: Action) -> bool {
    match action {
        Action::Login | Action::Register => false,
        _ => true,
    }
}

/// The start of the message for a status that the server rejected.
pub open spec fn failure_prefix(action: Action) -> Seq<char> {
    match action {
        Action::Login => "Login failed"@,
        Action::Register => "Registration failed"@,
        Action::UpdateUser | Action::AdminUpdateUser => "Update failed"@,
        Action::GetUsers => "Failed to get users"@,
        Action::GetUser => "Failed to get user"@,
        Action::DeleteUser => "Delete failed"@,
        Action::HorizontalCert | Action::VerticalCert => "Certificate generation failed"@,
    }
}

/// The text that reports the success of `action`; empty for the calls whose
/// reply carries data instead.
pub open spec fn fixed_reply(action: Action) -> Seq<char> {
    match action {
        Action::UpdateUser => "Profile updated successfully"@,
        Action::AdminUpdateUser => "User updated successfully"@,
        Action::DeleteUser => "User deleted successfully"@,
        Action::HorizontalCert => "Horizontal certificate generated"@,
        Action::VerticalCert => "Vertical certificate generated"@,
        _ => Seq::empty(),
    }
}

/// The error for a status outside 200 to 299.
pub open spec fn status_error(action: Action, status: u16) -> ApiError {
    if status == 401 {
        ApiError::Unauthorized
    } else {
        ApiError::Rejected { action, status }
    }
}

pub open spec fn status_result(action: Action, status: u16) -> Result<(), ApiError> {
    if is_success(status) {
        Ok(())
    } else {
        Err(status_error(action, status))
    }
}

pub open spec fn digit_char(d: nat) -> char {
    if d == 0 {
        '0'
    } else if d == 1 {
        '1'
    } else if d == 2 {
        '2'
    } else if d == 3 {
        '3'
    } else if d == 4 {
        '4'
    } else if d == 5 {
        '5'
    } else if d == 6 {
        '6'
    } else if d == 7 {
        '7'
    } else if d == 8 {
        '8'
    } else {
        '9'
    }
}

/// `n` in decimal, without leading zeros.
pub open spec fn decimal(n: nat) -> Seq<char>
    decreases n,
{
    if n < 10 {
        seq![digit_char(n)]
    } else {
        decimal(n / 10).push(digit_char(n % 10))
    }
}

/// The text that the user reads for `e`.
pub open spec fn error_text(e: ApiError) -> Seq<char> {
    match e {
        ApiError::Serialization(m) => "Failed to serialize request: "@ + m@,
        ApiError::Network(m) => "Request failed: "@ + m@,
        ApiError::Parse(m) => "Failed to parse response: "@ + m@,
        ApiError::Unauthorized => UNAUTHORIZED_MESSAGE@,
        ApiError::Rejected { action, status } => failure_prefix(action) + ": "@ + decimal(
            status as nat,
        ),
    }
}

fn digit_text(d: u16) -> (r: &'static str)
    requires
        d < 10,
    ensures
        r@ == seq![digit_char(d as nat)],
{
    proof {
        reveal_strlit("0");
        reveal_strlit("1");
        reveal_strlit("2");
        reveal_strlit("3");
        reveal_strlit("4");
        reveal_strlit("5");
        reveal_strlit("6");
        reveal_strlit("7");
        reveal_strlit("8");
        reveal_strlit("9");
    }
    match d {
        0 => "0",
        1 => "1",
        2 => "2",
        3 => "3",
        4 => "4",
        5 => "5",
        6 => "6",
        7 => "7",
        8 => "8",
        _ => "9",
    }
}

/// `n` written in decimal.
pub fn decimal_text(n: u16) -> (r: String)
    ensures
        r@ == decimal(n as nat),
    decreases n,
{
    if n < 10 {
        String::from_str(digit_text(n))
    } else {
        let mut s = decimal_text(n / 10);
        s.append(digit_text(n % 10));
        s
    }
}

impl Action {
    /// The HTTP method of this call.
    pub fn method(self) -> (r: HttpMethod)
        ensures
            r == method_of(self),
    {
        match self {
            Action::Login | Action::Register | Action::HorizontalCert | Action::VerticalCert => HttpMethod::Post,
            Action::UpdateUser | Action::AdminUpdateUser => HttpMethod::Put,
            Action::GetUsers | Action::GetUser => HttpMethod::Get,
            Action::DeleteUser => HttpMethod::Delete,
        }
    }

    /// Whether the request of this call carries a JSON body.
    pub fn has_json_body(self) -> (r: bool)
        ensures
            r == has_json_body(self),
    {
        match self {
            Action::Login | Action::Register | Action::UpdateUser | Action::AdminUpdateUser
            | Action::DeleteUser => true,
            _ => false,
        }
    }

    /// Whether this call carries the session's bearer token.
    pub fn needs_session(self) -> (r: bool)
        ensures
            r == needs_session(self),
    {
        match self {
            Action::Login | Action::Register => false,
            _ => true,
        }
    }

    fn failure_prefix(self) -> (r: &'static str)
        ensures
            r@ == failure_prefix(self),
    {
        match self {
            Action::Login => "Login failed",
            Action::Register => "Registration failed",
            Action::UpdateUser | Action::AdminUpdateUser => "Update failed",
            Action::GetUsers => "Failed to get users",
            Action::GetUser => "Failed to get user",
            Action::DeleteUser => "Delete failed",
            Action::HorizontalCert | Action::VerticalCert => "Certificate generation failed",
        }
    }
}

impl ApiError {
    /// The text that the user reads for this error.
    pub fn message(&self) -> (r: String)
        ensures
            r@ == error_text(*self),
    {
        match self {
            ApiError::Serialization(m) => {
                let mut s = String::from_str("Failed to serialize request: ");
                s.append(m.as_str());
                s
            },
            ApiError::Network(m) => {
                let mut s = String::from_str("Request failed: ");
                s.append(m.as_str());
                s
            },
            ApiError::Parse(m) => {
                let mut s = String::from_str("Failed to parse response: ");
                s.append(m.as_str());
                s
            },
            ApiError::Unauthorized => String::from_str(UNAUTHORIZED_MESSAGE),
            ApiError::Rejected { action, status } => {
                let mut s = String::from_str(action.failure_prefix());
                s.append(": ");
                let code = decimal_text(*status);
                s.append(code.as_str());
                s
            },
        }
    }
}

/// The client of the symposium API.
pub struct ApiService;

impl ApiService {
    /// The server that a build talks to: the local one when `debug_build`.
    pub fn get_base_url(debug_build: bool) -> (r: String)
        ensures
            r@ == (if debug_build {
                LOCAL_BASE_URL@
            } else {
                PRODUCTION_BASE_URL@
            }),
    {
        if debug_build {
            String::from_str(LOCAL_BASE_URL)
        } else {
            String::from_str(PRODUCTION_BASE_URL)
        }
    }

    /// The URL of `action` on the server at `base`; `user_id` fills the
    /// paths that name an account and is ignored by the others.
    pub fn url(base: &str, action: Action, user_id: &str) -> (r: String)
        ensures
            r@ == base@ + path_of(action, user_id@),
    {
        let mut s = String::from_str(base);
        match action {
            Action::Login => s.append("/auth/login"),
            Action::Register => s.append("/auth/register"),
            Action::UpdateUser => s.append("/user/update"),
            Action::GetUsers => s.append("/admin/users"),
            Action::GetUser | Action::AdminUpdateUser => {
                s.append("/admin/users/");
                s.append(user_id);
                assert(s@ == base@ + ("/admin/users/"@ + user_id@));
            },
            Action::DeleteUser => s.append("/admin/users/delete"),
            Action::HorizontalCert => s.append("/certificates/horizontal"),
            Action::VerticalCert => s.append("/certificates/vertical"),
        }
        s
    }

    /// The `Authorization` header value that carries `token`.
    pub fn authorization(token: &str) -> (r: String)
        ensures
            r@ == "Bearer "@ + token@,
    {
        let mut s = String::from_str("Bearer ");
        s.append(token);
        s
    }

    /// Whether the server accepted `action`: success for 200 to 299, the
    /// fixed unauthorized error for 401, and a rejection naming the status
    /// otherwise.
    pub fn check_status(action: Action, status: u16) -> (r: Result<(), ApiError>)
        ensures
            r == status_result(action, status),
    {
        if 200 <= status && status <= 299 {
            Ok(())
        } else if status == 401 {
            Err(ApiError::Unauthorized)
        } else {
            Err(ApiError::Rejected { action, status })
        }
    }

    /// The outcome of a call whose success is reported by a fixed text; the
    /// calls whose reply carries data get the empty text here.
    pub fn completion(action: Action, status: u16) -> (r: Result<String, ApiError>)
        ensures
            is_success(status) ==> (r matches Ok(m) && m@ == fixed_reply(action)),
            !is_success(status) ==> r == Err::<String, ApiError>(status_error(action, status)),
    {
        match Self::check_status(action, status) {
            Err(e) => Err(e),
            Ok(()) => Ok(
                match action {
                    Action::UpdateUser => String::from_str("Profile updated successfully"),
                    Action::AdminUpdateUser => String::from_str("User updated successfully"),
                    Action::DeleteUser => String::from_str("User deleted successfully"),
                    Action::HorizontalCert => String::from_str("Horizontal certificate generated"),
                    Action::VerticalCert => String::from_str("Vertical certificate generated"),
                    _ => String::new(),
                },
            ),
        }
    }

    /// The outcome of a login, given the status and what was read from the
    /// body's `token` member: the token, or the empty string where the body
    /// holds none.
    pub fn login_result(status: u16, token: Result<Option<String>, String>) -> (r: Result<String, ApiError>)
        ensures
            !is_success(status) ==> r == Err::<String, ApiError>(status_error(Action::Login, status)),
            is_success(status) ==> match token {
                Err(m) => r == Err::<String, ApiError>(ApiError::Parse(m)),
                Ok(Some(t)) => r == Ok::<String, ApiError>(t),
                Ok(None) => r matches Ok(t) && t@.len() == 0,
            },
    {
        match Self::check_status(Action::Login, status) {
            Err(e) => Err(e),
            Ok(()) => match token {
                Err(m) => Err(ApiError::Parse(m)),
                Ok(Some(t)) => Ok(t),
                Ok(None) => Ok(String::new()),
            },
        }
    }

    /// The outcome of a registration, given the status and what was read
    /// from the body's `message` member: that message, or `Success` where the
    /// body holds none.
    pub fn register_result(status: u16, message: Result<Option<String>, String>) -> (r: Result<String, ApiError>)
        ensures
            !is_success(status) ==> r == Err::<String, ApiError>(status_error(Action::Register, status)),
            is_success(status) ==> match message {
                Err(m) => r == Err::<String, ApiError>(ApiError::Parse(m)),
                Ok(Some(t)) => r == Ok::<String, ApiError>(t),
                Ok(None) => r matches Ok(t) && t@ == "Success"@,
            },
    {
        match Self::check_status(Action::Register, status) {
            Err(e) => Err(e),
            Ok(()) => match message {
                Err(m) => Err(ApiError::Parse(m)),
                Ok(Some(t)) => Ok(t),
                Ok(None) => Ok(String::from_str("Success")),
            },
        }
    }

    /// The outcome of a login response: the token that the JSON body holds
    /// under `token` (empty where it holds none), a parse error where the
    /// body is not JSON, or the status error.
    pub fn login_response(status: u16, body: &str) -> (r: Result<String, ApiError>)
        ensures
            !is_success(status) ==> r == Err::<String, ApiError>(status_error(Action::Login, status)),
            is_success(status) ==> match json_string_member(body@, "token"@) {
                None => r matches Err(ApiError::Parse(_)),
                Some(Some(t)) => r matches Ok(s) && s@ == t,
                Some(None) => r matches Ok(s) && s@.len() == 0,
            },
    {
        if !(200 <= status && status <= 299) {
            return Self::login_result(status, Ok(None));
        }
        let token = read_string_member(body, "token");
        Self::login_result(status, token)
    }

    /// The outcome of a registration response: the text that the JSON body
    /// holds under `message` (`Success` where it holds none), a parse error
    /// where the body is not JSON, or the status error.
    pub fn register_response(status: u16, body: &str) -> (r: Result<String, ApiError>)
        ensures
            !is_success(status) ==> r == Err::<String, ApiError>(status_error(Action::Register, status)),
            is_success(status) ==> match json_string_member(body@, "message"@) {
                None => r matches Err(ApiError::Parse(_)),
                Some(Some(t)) => r matches Ok(s) && s@ == t,
                Some(None) => r matches Ok(s) && s@ == "Success"@,
            },
    {
        if !(200 <= status && status <= 299) {
            return Self::register_result(status, Ok(None));
        }
        let message = read_string_member(body, "message");
        Self::register_result(status, message)
    }
}

} // verus!
