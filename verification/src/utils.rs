//! The resolution steps that both interceptors share, with one failure
//! semantics for the two of them.

use vstd::prelude::*;

use crate::error::AuthError;
use crate::request::registered_context;
use crate::secured_session::SecuredSession;

verus! {

/// What an interceptor asks the session service for: the session that
/// `session_id` names, looked up on `application`.
#[verifier::reject_recursive_types(AppContext)]
pub struct SessionLookup<AppContext> {
    pub session_id: String,
    pub application: actix_web::web::Data<AppContext>,
}

/// The session identifier that the request presents: the value of its session
/// cookie, or `UnknownSessionCookie` where the request carries no such cookie.
pub fn session_id(presented: Option<String>) -> (result: Result<String, AuthError>)
    ensures
        result == match presented {
            Some(id) => Ok::<String, AuthError>(id),
            None => Err(AuthError::UnknownSessionCookie),
        },
{
    match presented {
        Some(id) => Ok(id),
        None => Err(AuthError::UnknownSessionCookie),
    }
}

/// The registered application context, or the error that stands for its absence.
pub fn context_or_error<AppContext>(found: Option<actix_web::web::Data<AppContext>>) -> (result:
    Result<actix_web::web::Data<AppContext>, AuthError>)
    ensures
        result == context_outcome(found),
{
    match found {
        Some(application) => Ok(application),
        None => Err(AuthError::UnknownApplicationContext),
    }
}

/// The application context of the request: what the lookup in the request's
/// registry found, or `UnknownApplicationContext` where it found none.
pub fn application_context<AppContext: 'static>(req: &actix_web::dev::ServiceRequest) -> (result:
    Result<actix_web::web::Data<AppContext>, AuthError>)
    ensures
        exists|found: Option<actix_web::web::Data<AppContext>>| #[trigger]
            registry_gave(*req, found) && result == context_outcome(found),
        result matches Err(e) ==> e == AuthError::UnknownApplicationContext,
{
    let found = registered_context::<AppContext>(req);
    assert(registry_gave(*req, found));
    context_or_error(found)
}

/// The session that the service resolved, or `SessionNotFound` where it
/// resolved none.
pub fn session<SessionType: SecuredSession>(found: Option<SessionType>) -> (result: Result<
    SessionType,
    AuthError,
>)
    ensures
        result == match found {
            Some(resolved) => Ok::<SessionType, AuthError>(resolved),
            None => Err(AuthError::SessionNotFound),
        },
{
    match found {
        Some(resolved) => Ok(resolved),
        None => Err(AuthError::SessionNotFound),
    }
}

/// The error for a session that lacks every required role.
pub fn forbidden_error() -> (error: AuthError)
    ensures
        error == AuthError::NoGrants,
        error.status() == 403,
{
    AuthError::NoGrants
}

/// The first half of an interceptor's pass, up to the point where the session
/// service has to be asked. `presented` is the value of the session cookie as
/// read off the request, `None` where the request carries none. The cookie is
/// looked at first; the application context is looked up only where there is
/// a cookie.
pub fn session_lookup<AppContext: 'static>(
    req: &actix_web::dev::ServiceRequest,
    presented: Option<String>,
) -> (result: Result<SessionLookup<AppContext>, AuthError>)
    ensures
        presented is None ==> result == Err::<SessionLookup<AppContext>, AuthError>(
            AuthError::UnknownSessionCookie,
        ),
        presented is Some ==> exists|found: Option<actix_web::web::Data<AppContext>>| #[trigger]
            registry_gave(*req, found) && result == lookup_outcome(presented, found),
{
    let session_id = session_id(presented)?;
    let application = application_context::<AppContext>(req)?;
    Ok(SessionLookup { session_id, application })
}

/// What the first half of a pass comes to, given the cookie value that the
/// request presents and what the lookup in its registry answered: the lookup
/// to make where both are there, `UnknownSessionCookie` without the cookie,
/// and `UnknownApplicationContext` with the cookie but without the context.
pub open spec fn lookup_outcome<AppContext>(
    presented: Option<String>,
    found: Option<actix_web::web::Data<AppContext>>,
) -> Result<SessionLookup<AppContext>, AuthError> {
    match presented {
        None => Err(AuthError::UnknownSessionCookie),
        Some(session_id) => match found {
            None => Err(AuthError::UnknownApplicationContext),
            Some(application) => Ok(SessionLookup { session_id, application }),
        },
    }
}

/// `found` is what the lookup of an `AppContext` in the registry of `req`
/// answered.
pub closed spec fn registry_gave<AppContext: 'static>(
    req: actix_web::dev::ServiceRequest,
    found: Option<actix_web::web::Data<AppContext>>,
) -> bool {
    call_ensures(registered_context::<AppContext>, (&req,), found)
}

/// What a lookup in the request's registry comes to: the context that was
/// found, or `UnknownApplicationContext` where none was.
pub open spec fn context_outcome<AppContext>(
    found: Option<actix_web::web::Data<AppContext>>,
) -> Result<actix_web::web::Data<AppContext>, AuthError> {
    match found {
        Some(application) => Ok(application),
        None => Err(AuthError::UnknownApplicationContext),
    }
}

} // verus!
