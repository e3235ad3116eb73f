//! Records exchanged with the symposium's HTTP API.
use vstd::prelude::*;

verus! {

/// A new account, as sent to the registration endpoint.
#[derive(Debug, Clone, PartialEq, Eq)]
pub struct RegisterRequest {
    pub email: String,
    pub full_name: String,
    pub identification: String,
    pub password: String,
    pub role: String,
    pub presentation: String,
    pub attendance: String,
}

/// Credentials sent to the login endpoint.
#[derive(Debug, Clone, PartialEq, Eq)]
pub struct LoginRequest {
    pub email: String,
    pub password: String,
}

/// The fields that a signed-in user may change in their own profile.
#[derive(Debug, Clone, PartialEq, Eq)]
pub struct UpdateUserRequest {
    pub email: String,
    pub password: String,
    pub attendance: String,
}

/// Every field of an account, as an administrator edits it.
#[derive(Debug, Clone, PartialEq, Eq)]
pub struct AdminUpdateUserRequest {
    pub id: String,
    pub email: String,
    pub full_name: String,
    pub identification: String,
    pub password: String,
    pub role: String,
    pub presentation: String,
    pub attendance: String,
}

/// The account to delete, identified by its fields.
#[derive(Debug, Clone, PartialEq, Eq)]
pub struct DeleteUserRequest {
    pub email: String,
    pub full_name: String,
    pub identification: String,
    pub password: String,
    pub role: String,
    pub presentation: String,
    pub attendance: String,
}

/// An account as the API reports it.
#[derive(Debug, Clone, PartialEq, Eq)]
pub struct User {
    pub id: String,
    pub email: String,
    pub full_name: String,
    pub identification: String,
    pub role: UserRole,
    pub presentation: Option<String>,
    pub attendance: String,
    pub cert_generated: CertificateStatus,
}

/// A role: a plain name (`attendee`, `staff`, `webmaster`), or a speaker
/// with the talk they give.
#[derive(Debug, Clone, PartialEq, Eq)]
pub enum UserRole {
    Simple(String),
    Speaker { speaker: SpeakerInfo },
}

/// What a speaker presents.
#[derive(Debug, Clone, PartialEq, Eq)]
pub struct SpeakerInfo {
    pub presentation: String,
}

/// Which certificates have been generated for an account.
#[derive(Debug, Clone, Copy, PartialEq, Eq)]
pub struct CertificateStatus {
    pub horizontal: bool,
    pub vertical: bool,
}

} // verus!
