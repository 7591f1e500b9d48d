//! The per-browser session record and its login-state operations.

use vstd::prelude::*;

verus! {

/// An authenticated identity.
#[derive(Debug, Clone, PartialEq)]
pub struct User {
    pub email: String,
    pub roles: Vec<String>,
}

/// The three values written by a login and consumed by its callback.
#[derive(Debug, PartialEq)]
pub struct LoginState {
    pub pkce_verifier: String,
    pub csrf_token: String,
    pub nonce: String,
}

/// What one browser session holds.
#[derive(Debug, PartialEq)]
pub struct SessionData {
    pub pkce_verifier: Option<String>,
    pub csrf_token: Option<String>,
    pub nonce: Option<String>,
    pub user: Option<User>,
}

impl SessionData {
    /// No login in progress: none of the three login fields is present.
    pub open spec fn has_no_login_fields(self) -> bool {
        &&& self.pkce_verifier is None
        &&& self.csrf_token is None
        &&& self.nonce is None
    }

    /// The session holds nothing at all.
    pub open spec fn is_empty(self) -> bool {
        self.has_no_login_fields() && self.user is None
    }

    /// The login in progress, present only when all three fields are.
    pub open spec fn login_state(self) -> Option<LoginState> {
        match (self.pkce_verifier, self.csrf_token, self.nonce) {
            (Some(p), Some(c), Some(n)) => Some(
                LoginState { pkce_verifier: p, csrf_token: c, nonce: n },
            ),
            _ => None,
        }
    }

    /// An empty session.
    pub fn new() -> (r: SessionData)
        ensures
            r.is_empty(),
    {
        SessionData { pkce_verifier: None, csrf_token: None, nonce: None, user: None }
    }

    /// Records a login in progress; the three values are written together.
    pub fn begin_login(&mut self, login: LoginState)
        ensures
            final(self).login_state() == Some(login),
            final(self).user == old(self).user,
    {
        self.pkce_verifier = Some(login.pkce_verifier);
        self.csrf_token = Some(login.csrf_token);
        self.nonce = Some(login.nonce);
    }

    /// Reads and removes the three login fields in one step. The login is
    /// returned only when all three were present; they are gone afterwards
    /// in every case.
    pub fn take_login_state(&mut self) -> (r: Option<LoginState>)
        ensures
            r == old(self).login_state(),
            final(self).has_no_login_fields(),
            final(self).user == old(self).user,
    {
        let p = self.pkce_verifier.take();
        let c = self.csrf_token.take();
        let n = self.nonce.take();
        match (p, c, n) {
            (Some(p), Some(c), Some(n)) => Some(
                LoginState { pkce_verifier: p, csrf_token: c, nonce: n },
            ),
            _ => None,
        }
    }

    /// Removes everything from the session.
    pub fn clear(&mut self)
        ensures
            final(self).is_empty(),
    {
        self.pkce_verifier = None;
        self.csrf_token = None;
        self.nonce = None;
        self.user = None;
    }

    /// Stores the authenticated identity, replacing any earlier one.
    pub fn set_user(&mut self, user: User)
        ensures
            final(self).user == Some(user),
            final(self).pkce_verifier == old(self).pkce_verifier,
            final(self).csrf_token == old(self).csrf_token,
            final(self).nonce == old(self).nonce,
    {
        self.user = Some(user);
    }
}

} // verus!
