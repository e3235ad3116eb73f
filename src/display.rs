//! How account fields read in the administrator's table.
use vstd::prelude::*;
use crate::types::UserRole;
use crate::utils::same_text;

verus! {

/// The label of a plain role name; unknown names read as attendees.
pub open spec fn role_label(name: Seq<char>) -> Seq<char> {
    if name == "webmaster"@ {
        "Administrador"@
    } else if name == "staff"@ {
        "Organizador"@
    } else {
        "Asistente"@
    }
}

/// The role column and the presentation column of a role.
pub open spec fn role_columns(role: UserRole) -> (Seq<char>, Seq<char>) {
    match role {
        UserRole::Simple(name) => (role_label(name@), "-"@),
        UserRole::Speaker { speaker } => ("Ponente"@, speaker.presentation@),
    }
}

pub open spec fn attendance_label(attendance: Seq<char>) -> Seq<char> {
    if attendance == "presential"@ {
        "Presencial"@
    } else {
        "Remota"@
    }
}

pub open spec fn cert_label(generated: bool) -> Seq<char> {
    if generated {
        "Sí"@
    } else {
        "No"@
    }
}

/// The role column and the presentation column for `role`.
pub fn role_display(role: &UserRole) -> (r: (String, String))
    ensures
        (r.0@, r.1@) == role_columns(*role),
{
    match role {
        UserRole::Simple(name) => {
            let label = if same_text(name.as_str(), "webmaster") {
                "Administrador"
            } else if same_text(name.as_str(), "staff") {
                "Organizador"
            } else {
                "Asistente"
            };
            (String::from_str(label), String::from_str("-"))
        },
        UserRole::Speaker { speaker } => (String::from_str("Ponente"), speaker.presentation.clone()),
    }
}

/// The label of an attendance mode; anything but `presential` is remote.
pub fn attendance_display(attendance: &str) -> (r: &'static str)
    ensures
        r@ == attendance_label(attendance@),
{
    if same_text(attendance, "presential") {
        "Presencial"
    } else {
        "Remota"
    }
}

/// The label of a certificate flag.
pub fn cert_display(generated: bool) -> (r: &'static str)
    ensures
        r@ == cert_label(generated),
{
    if generated {
        "Sí"
    } else {
        "No"
    }
}

} // verus!
