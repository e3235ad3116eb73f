//! The session store: the bearer token and the cached user record.
use vstd::prelude::*;

verus! {

/// The storage key under which the browser shell persists the token.
pub const TOKEN_KEY: &'static str = "auth_token";

/// The storage key under which the browser shell persists the user record.
pub const USER_KEY: &'static str = "current_user";

/// What a session holds.
pub struct SessionView {
    pub token: Option<Seq<char>>,
    pub user_info: Option<serde_json::Value>,
}

/// A session that holds nothing.
pub open spec fn empty_session() -> SessionView {
    SessionView { token: None, user_info: None }
}

/// Signed in: a token is present. Its form and age are not examined.
pub open spec fn signed_in(s: SessionView) -> bool {
    s.token is Some
}

pub open spec fn with_token(s: SessionView, token: Seq<char>) -> SessionView {
    SessionView { token: Some(token), ..s }
}

pub open spec fn without_token(s: SessionView) -> SessionView {
    SessionView { token: None, ..s }
}

pub open spec fn with_user_info(s: SessionView, user: serde_json::Value) -> SessionView {
    SessionView { user_info: Some(user), ..s }
}

/// The session of the browser tab: the token that authenticated calls carry,
/// and the user record cached beside it. The shell persists both under
/// [`TOKEN_KEY`] and [`USER_KEY`].
pub struct AuthService {
    token: Option<String>,
    user_info: Option<serde_json::Value>,
}

impl View for AuthService {
    type V = SessionView;

    closed spec fn view(&self) -> SessionView {
        SessionView {
            token: match self.token {
                Some(t) => Some(t@),
                None => None,
            },
            user_info: self.user_info,
        }
    }
}

impl AuthService {
    /// A session with no token and no user record.
    pub fn new() -> (r: AuthService)
        ensures
            r@ == empty_session(),
    {
        AuthService { token: None, user_info: None }
    }

    /// A session as the shell found it persisted.
    pub fn restore(token: Option<String>, user_info: Option<serde_json::Value>) -> (r: AuthService)
        ensures
            r@.token == match token {
                Some(t) => Some(t@),
                None => None::<Seq<char>>,
            },
            r@.user_info == user_info,
    {
        AuthService { token, user_info }
    }

    /// Stores `token`, replacing any earlier one.
    pub fn set_token(&mut self, token: String)
        ensures
            final(self)@ == with_token(old(self)@, token@),
    {
        self.token = Some(token);
    }

    /// The stored token, if any.
    pub fn get_token(&self) -> (r: Option<String>)
        ensures
            match r {
                Some(t) => self@.token == Some(t@),
                None => self@.token is None,
            },
    {
        match &self.token {
            Some(t) => Some(t.clone()),
            None => None,
        }
    }

    /// Drops the token; dropping an absent one does nothing.
    pub fn remove_token(&mut self)
        ensures
            final(self)@ == without_token(old(self)@),
    {
        self.token = None;
    }

    /// Whether a token is present.
    pub fn is_authenticated(&self) -> (r: bool)
        ensures
            r == signed_in(self@),
    {
        self.token.is_some()
    }

    /// Drops the token and the cached user record.
    pub fn logout(&mut self)
        ensures
            final(self)@ == empty_session(),
    {
        self.remove_token();
        self.user_info = None;
    }

    /// Caches `user`, replacing any earlier record.
    pub fn set_user_info(&mut self, user: serde_json::Value)
        ensures
            final(self)@ == with_user_info(old(self)@, user),
    {
        self.user_info = Some(user);
    }

    /// The cached user record, if any.
    pub fn get_user_info(&self) -> (r: Option<&serde_json::Value>)
        ensures
            match r {
                Some(v) => self@.user_info == Some(*v),
                None => self@.user_info is None,
            },
    {
        self.user_info.as_ref()
    }
}

/// A fresh session is signed out.
pub proof fn lemma_new_session_signed_out()
    ensures
        !signed_in(empty_session()),
{
}

/// Storing a token signs the session in, whatever the token and the session.
pub proof fn lemma_set_token_signs_in(s: SessionView, token: Seq<char>)
    ensures
        signed_in(with_token(s, token)),
        with_token(s, token).token == Some(token),
{
}

/// Dropping the token signs the session out, and dropping it again changes
/// nothing.
pub proof fn lemma_remove_token_idempotent(s: SessionView)
    ensures
        !signed_in(without_token(s)),
        without_token(without_token(s)) == without_token(s),
{
}

} // verus!
