//! What the forms decide when submitted: the request to send, or the
//! message to show instead; and the message that the reply leaves.
use vstd::prelude::*;
use crate::api::{ApiError, error_text};
use crate::auth::{AuthService, SessionView, signed_in, with_token};
use crate::routes::{Access, Route, access_of};
use crate::types::{
    AdminUpdateUserRequest, DeleteUserRequest, LoginRequest, RegisterRequest, UpdateUserRequest,
    User, UserRole,
};
use crate::utils::{password_ok, same_text, validate_password};

verus! {

/// Why a form was not sent.
#[derive(Clone, Copy, Debug, PartialEq, Eq, Structural)]
pub enum FormError {
    /// A password field does not meet the password policy.
    InvalidPassword,
    /// The password and its repetition differ.
    PasswordMismatch,
}

pub open spec fn form_error_text(e: FormError) -> Seq<char> {
    match e {
        FormError::InvalidPassword => "Contraseña no válida"@,
        FormError::PasswordMismatch => "Contraseñas no coinciden"@,
    }
}

/// The check of a password typed twice: both must meet the policy, then
/// they must agree.
pub open spec fn password_pair_result(password: Seq<char>, repeated: Seq<char>) -> Result<(), FormError> {
    if !password_ok(password) || !password_ok(repeated) {
        Err(FormError::InvalidPassword)
    } else if password != repeated {
        Err(FormError::PasswordMismatch)
    } else {
        Ok(())
    }
}

/// The check of an administrator's edit: an empty password keeps the old
/// one, any other must meet the policy.
pub open spec fn optional_password_result(password: Seq<char>) -> Result<(), FormError> {
    if password.len() != 0 && !password_ok(password) {
        Err(FormError::InvalidPassword)
    } else {
        Ok(())
    }
}

impl FormError {
    /// The text shown beside the form.
    pub fn message(&self) -> (r: String)
        ensures
            r@ == form_error_text(*self),
    {
        match self {
            FormError::InvalidPassword => String::from_str("Contraseña no válida"),
            FormError::PasswordMismatch => String::from_str("Contraseñas no coinciden"),
        }
    }
}

/// Checks a password typed twice.
pub fn check_password_pair(password: &str, repeated: &str) -> (r: Result<(), FormError>)
    ensures
        r == password_pair_result(password@, repeated@),
{
    if !validate_password(password) || !validate_password(repeated) {
        Err(FormError::InvalidPassword)
    } else if !same_text(password, repeated) {
        Err(FormError::PasswordMismatch)
    } else {
        Ok(())
    }
}

/// The self-service registration form: a request for an attendee with no
/// presentation, or the reason not to send one.
pub fn register_request(
    email: String,
    full_name: String,
    identification: String,
    password: String,
    repeated_password: String,
    attendance: String,
) -> (r: Result<RegisterRequest, FormError>)
    ensures
        match password_pair_result(password@, repeated_password@) {
            Err(e) => r == Err::<RegisterRequest, FormError>(e),
            Ok(()) => r matches Ok(req) && req.email == email && req.full_name == full_name
                && req.identification == identification && req.password == password
                && req.role@ == "attendee"@ && req.presentation@.len() == 0 && req.attendance
                == attendance,
        },
{
    match check_password_pair(password.as_str(), repeated_password.as_str()) {
        Err(e) => Err(e),
        Ok(()) => Ok(
            RegisterRequest {
                email,
                full_name,
                identification,
                password,
                role: String::from_str("attendee"),
                presentation: String::new(),
                attendance,
            },
        ),
    }
}

/// The administrator's registration form: a request with the role and
/// presentation chosen, or the reason not to send one.
pub fn admin_register_request(
    email: String,
    full_name: String,
    identification: String,
    password: String,
    repeated_password: String,
    role: String,
    presentation: String,
    attendance: String,
) -> (r: Result<RegisterRequest, FormError>)
    ensures
        match password_pair_result(password@, repeated_password@) {
            Err(e) => r == Err::<RegisterRequest, FormError>(e),
            Ok(()) => r == Ok::<RegisterRequest, FormError>(
                RegisterRequest {
                    email,
                    full_name,
                    identification,
                    password,
                    role,
                    presentation,
                    attendance,
                },
            ),
        },
{
    match check_password_pair(password.as_str(), repeated_password.as_str()) {
        Err(e) => Err(e),
        Ok(()) => Ok(
            RegisterRequest {
                email,
                full_name,
                identification,
                password,
                role,
                presentation,
                attendance,
            },
        ),
    }
}

/// The login form: the credentials to send, or the reason not to.
pub fn login_request(email: String, password: String) -> (r: Result<LoginRequest, FormError>)
    ensures
        password_ok(password@) ==> r == Ok::<LoginRequest, FormError>(
            LoginRequest { email, password },
        ),
        !password_ok(password@) ==> r == Err::<LoginRequest, FormError>(FormError::InvalidPassword),
{
    if !validate_password(password.as_str()) {
        Err(FormError::InvalidPassword)
    } else {
        Ok(LoginRequest { email, password })
    }
}

/// The profile form: the update to send, or the reason not to.
pub fn update_request(
    email: String,
    password: String,
    repeated_password: String,
    attendance: String,
) -> (r: Result<UpdateUserRequest, FormError>)
    ensures
        match password_pair_result(password@, repeated_password@) {
            Err(e) => r == Err::<UpdateUserRequest, FormError>(e),
            Ok(()) => r == Ok::<UpdateUserRequest, FormError>(
                UpdateUserRequest { email, password, attendance },
            ),
        },
{
    match check_password_pair(password.as_str(), repeated_password.as_str()) {
        Err(e) => Err(e),
        Ok(()) => Ok(UpdateUserRequest { email, password, attendance }),
    }
}

/// The administrator's edit form: the update to send, or the reason not to.
/// An empty password asks the server to keep the current one.
pub fn admin_update_request(
    id: String,
    email: String,
    full_name: String,
    identification: String,
    password: String,
    role: String,
    presentation: String,
    attendance: String,
) -> (r: Result<AdminUpdateUserRequest, FormError>)
    ensures
        match optional_password_result(password@) {
            Err(e) => r == Err::<AdminUpdateUserRequest, FormError>(e),
            Ok(()) => r == Ok::<AdminUpdateUserRequest, FormError>(
                AdminUpdateUserRequest {
                    id,
                    email,
                    full_name,
                    identification,
                    password,
                    role,
                    presentation,
                    attendance,
                },
            ),
        },
{
    if password.unicode_len() != 0 && !validate_password(password.as_str()) {
        Err(FormError::InvalidPassword)
    } else {
        Ok(
            AdminUpdateUserRequest {
                id,
                email,
                full_name,
                identification,
                password,
                role,
                presentation,
                attendance,
            },
        )
    }
}

/// The role name that the API takes for `role`.
pub open spec fn role_name(role: UserRole) -> Seq<char> {
    match role {
        UserRole::Simple(r) => r@,
        UserRole::Speaker { .. } => "speaker"@,
    }
}

/// The presentation that `user` gives, if any: the speaker's, else the
/// record's own.
pub open spec fn presentation_of(user: User) -> Seq<char> {
    match user.role {
        UserRole::Speaker { speaker } => speaker.presentation@,
        UserRole::Simple(_) => match user.presentation {
            Some(p) => p@,
            None => Seq::empty(),
        },
    }
}

/// The role name that the API takes for `role`: the plain name, or
/// `speaker`.
pub fn role_text(role: &UserRole) -> (r: String)
    ensures
        r@ == role_name(*role),
{
    match role {
        UserRole::Simple(r) => r.clone(),
        UserRole::Speaker { .. } => String::from_str("speaker"),
    }
}

/// The presentation that `user` gives, or the empty string.
pub fn presentation_text(user: &User) -> (r: String)
    ensures
        r@ == presentation_of(*user),
{
    match &user.role {
        UserRole::Speaker { speaker } => speaker.presentation.clone(),
        UserRole::Simple(_) => match &user.presentation {
            Some(p) => p.clone(),
            None => String::new(),
        },
    }
}

/// The request that deletes `user`: its fields, with no password.
pub fn delete_request(user: User) -> (r: DeleteUserRequest)
    ensures
        r.email == user.email,
        r.full_name == user.full_name,
        r.identification == user.identification,
        r.password@.len() == 0,
        r.role@ == role_name(user.role),
        r.presentation@ == presentation_of(user),
        r.attendance == user.attendance,
{
    let role = role_text(&user.role);
    let presentation = presentation_text(&user);
    DeleteUserRequest {
        email: user.email,
        full_name: user.full_name,
        identification: user.identification,
        password: String::new(),
        role,
        presentation,
        attendance: user.attendance,
    }
}

/// The forms whose reply is shown as a message.
#[derive(Clone, Copy, Debug, PartialEq, Eq, Structural)]
pub enum Submission {
    SelfRegistration,
    AdminRegistration,
    ProfileUpdate,
    AdminUpdate,
    UserDeletion,
    HorizontalCert,
    VerticalCert,
}

pub open spec fn success_text(s: Submission) -> Seq<char> {
    match s {
        Submission::SelfRegistration => "Registro exitoso"@,
        Submission::AdminRegistration => "Usuario registrado exitosamente"@,
        Submission::ProfileUpdate => "Perfil actualizado exitosamente"@,
        Submission::AdminUpdate => "Usuario actualizado exitosamente"@,
        Submission::UserDeletion => "Usuario eliminado exitosamente"@,
        Submission::HorizontalCert => "Certificado horizontal generado exitosamente"@,
        Submission::VerticalCert => "Certificado vertical generado exitosamente"@,
    }
}

/// The message that a reply leaves beside the form.
pub open spec fn reply_text(s: Submission, e: Option<ApiError>) -> Seq<char> {
    match e {
        None => success_text(s),
        Some(e) => if s == Submission::UserDeletion {
            "Error al eliminar usuario: "@ + error_text(e)
        } else {
            error_text(e)
        },
    }
}

impl Submission {
    /// The message shown once the server has answered `result`.
    pub fn reply(self, result: &Result<String, ApiError>) -> (r: String)
        ensures
            r@ == reply_text(
                self,
                match result {
                    Ok(_) => None,
                    Err(e) => Some(*e),
                },
            ),
    {
        match result {
            Ok(_) => match self {
                Submission::SelfRegistration => String::from_str("Registro exitoso"),
                Submission::AdminRegistration => String::from_str("Usuario registrado exitosamente"),
                Submission::ProfileUpdate => String::from_str("Perfil actualizado exitosamente"),
                Submission::AdminUpdate => String::from_str("Usuario actualizado exitosamente"),
                Submission::UserDeletion => String::from_str("Usuario eliminado exitosamente"),
                Submission::HorizontalCert => String::from_str(
                    "Certificado horizontal generado exitosamente",
                ),
                Submission::VerticalCert => String::from_str(
                    "Certificado vertical generado exitosamente",
                ),
            },
            Err(e) => {
                let text = e.message();
                match self {
                    Submission::UserDeletion => {
                        let mut s = String::from_str("Error al eliminar usuario: ");
                        s.append(text.as_str());
                        s
                    },
                    _ => text,
                }
            },
        }
    }
}

/// What the login form does once the server has answered.
#[derive(Clone, Debug, PartialEq, Eq)]
pub enum LoginStep {
    /// The token is stored: go to the profile page.
    GoToProfile,
    /// Stay on the form and show this message.
    Show(String),
}

/// Applies a login reply: a token is stored in `session`, an error only
/// shown.
pub fn finish_login(session: &mut AuthService, result: Result<String, ApiError>) -> (r: LoginStep)
    ensures
        match result {
            Ok(token) => final(session)@ == with_token(old(session)@, token@) && r
                == LoginStep::GoToProfile,
            Err(e) => final(session)@ == old(session)@ && (r matches LoginStep::Show(m) && m@
                == error_text(e)),
        },
{
    match result {
        Ok(token) => {
            session.set_token(token);
            LoginStep::GoToProfile
        },
        Err(e) => LoginStep::Show(e.message()),
    }
}

/// Two valid passwords that differ are refused as a mismatch, so no
/// request is built from them. (A pair with an invalid member is refused as
/// invalid first.)
pub proof fn lemma_mismatch_not_sent(password: Seq<char>, repeated: Seq<char>)
    requires
        password_ok(password),
        password_ok(repeated),
        password != repeated,
    ensures
        password_pair_result(password, repeated) == Err::<(), FormError>(FormError::PasswordMismatch),
{
}

/// Once a login reply's token is stored, the session is signed in and the
/// profile page renders without a redirect.
pub proof fn lemma_login_opens_profile(session: SessionView, token: Seq<char>)
    ensures
        signed_in(with_token(session, token)),
        access_of(Route::Profile, signed_in(with_token(session, token))) == Access::Render,
{
}

} // verus!
