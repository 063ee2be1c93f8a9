//! Why a request is turned away.

use vstd::prelude::*;

verus! {

/// The reasons for which an interceptor rejects a request. Each one ends the
/// pipeline at once: the wrapped stage is not invoked.
#[derive(Clone, Copy, Debug, PartialEq, Eq, Structural)]
pub enum AuthError {
    /// The request does not carry the session cookie.
    UnknownSessionCookie,
    /// The host registered no application context for the request.
    UnknownApplicationContext,
    /// The cookie's value names no session.
    SessionNotFound,
    /// The session holds none of the roles that the route asks for.
    NoGrants,
}

impl AuthError {
    /// The HTTP status that the rejection is answered with.
    pub open spec fn status(self) -> u16 {
        match self {
            AuthError::UnknownSessionCookie => 401,
            AuthError::UnknownApplicationContext => 500,
            AuthError::SessionNotFound => 401,
            AuthError::NoGrants => 403,
        }
    }

    /// The client has no valid session and may authenticate again.
    pub open spec fn is_unauthorized(self) -> bool {
        self == AuthError::UnknownSessionCookie || self == AuthError::SessionNotFound
    }

    pub fn status_code(&self) -> (code: u16)
        ensures
            code == self.status(),
            code == 401 <==> self.is_unauthorized(),
            code == 403 <==> *self == AuthError::NoGrants,
            code == 500 <==> *self == AuthError::UnknownApplicationContext,
    {
        match self {
            AuthError::UnknownSessionCookie => 401,
            AuthError::UnknownApplicationContext => 500,
            AuthError::SessionNotFound => 401,
            AuthError::NoGrants => 403,
        }
    }

    /// A short description of the cause, for logs.
    pub fn message(&self) -> (text: &'static str)
        ensures
            text@ == match *self {
                AuthError::UnknownSessionCookie => "Unknown session cookie"@,
                AuthError::UnknownApplicationContext => "Unknown application context"@,
                AuthError::SessionNotFound => "Session not found"@,
                AuthError::NoGrants => "No grants"@,
            },
    {
        match self {
            AuthError::UnknownSessionCookie => "Unknown session cookie",
            AuthError::UnknownApplicationContext => "Unknown application context",
            AuthError::SessionNotFound => "Session not found",
            AuthError::NoGrants => "No grants",
        }
    }

    /// The body of the rejection response: it is empty.
    pub fn response_body(&self) -> (body: &'static str)
        ensures
            body@.len() == 0,
    {
        let body = "";
        proof {
            reveal_strlit("");
        }
        body
    }
}

} // verus!
