//! The pages of the application and which of them need a session.
use vstd::prelude::*;

verus! {

/// The pages of the application.
#[derive(Clone, Debug, PartialEq, Eq)]
pub enum Route {
    Home,
    Register,
    Login,
    Profile,
    Certificates,
    AdminUsers,
    AdminRegister,
    AdminUpdate { id: String },
    NotFound,
}

/// The pages that only a signed-in session may see.
pub open spec fn is_protected(route: Route) -> bool {
    match route {
        Route::Home | Route::Register | Route::Login | Route::NotFound => false,
        _ => true,
    }
}

/// What the guard of a page does.
#[derive(Clone, Copy, Debug, PartialEq, Eq, Structural)]
pub enum Access {
    /// Show the page.
    Render,
    /// Send the visitor to the login page.
    RedirectToLogin,
}

pub open spec fn access_of(route: Route, authenticated: bool) -> Access {
    if is_protected(route) && !authenticated {
        Access::RedirectToLogin
    } else {
        Access::Render
    }
}

impl Route {
    /// Whether this page needs a session.
    pub fn is_protected(&self) -> (r: bool)
        ensures
            r == is_protected(*self),
    {
        match self {
            Route::Home | Route::Register | Route::Login | Route::NotFound => false,
            _ => true,
        }
    }
}

/// The guard around the protected pages: their content for a signed-in
/// session, a redirect to the login page otherwise.
pub fn protected_route(authenticated: bool) -> (r: Access)
    ensures
        r == (if authenticated {
            Access::Render
        } else {
            Access::RedirectToLogin
        }),
{
    if authenticated {
        Access::Render
    } else {
        Access::RedirectToLogin
    }
}

/// What a visit to `route` shows, given whether the session is signed in.
pub fn switch(route: &Route, authenticated: bool) -> (r: Access)
    ensures
        r == access_of(*route, authenticated),
{
    if route.is_protected() {
        protected_route(authenticated)
    } else {
        Access::Render
    }
}

} // verus!
