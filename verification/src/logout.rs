//! The interceptor for the logout route: any active session passes.

use std::marker::PhantomData;
use std::rc::Rc;

use vstd::prelude::*;

use crate::error::AuthError;
use crate::secured_session::SecuredSession;
use crate::session::{RequestState, Session};
use crate::utils::{lookup_outcome, registry_gave, session, session_lookup, SessionLookup};

verus! {

/// Makes the interceptor for the logout route, with the session identified by
/// the cookie `session_cookie_key`.
pub fn logout_wrapper<AppContext, RoleType>(session_cookie_key: &'static str) -> (wrapper:
    LogoutWrapper<AppContext, RoleType>)
    ensures
        wrapper.cookie_name() == session_cookie_key@,
{
    LogoutWrapper::new(session_cookie_key)
}

/// The configuration of the logout route: the name of the session cookie.
/// There is no list of roles, since logout is open to every authenticated
/// identity.
pub struct LogoutWrapper<AppContext, RoleType> {
    session_cookie_name: &'static str,
    application_context: PhantomData<AppContext>,
    role_type: PhantomData<RoleType>,
}

impl<AppContext, RoleType> LogoutWrapper<AppContext, RoleType> {
    pub closed spec fn cookie_name(&self) -> Seq<char> {
        self.session_cookie_name@
    }

    pub fn new(session_cookie_name: &'static str) -> (wrapper: Self)
        ensures
            wrapper.cookie_name() == session_cookie_name@,
    {
        Self {
            session_cookie_name,
            application_context: PhantomData::<AppContext>,
            role_type: PhantomData::<RoleType>,
        }
    }

    /// Wraps `service`, the next stage, into the interceptor.
    pub fn new_transform<ActixService>(&self, service: ActixService) -> (middleware:
        LogoutWrapperMiddleware<ActixService, AppContext, RoleType>)
        ensures
            middleware.cookie_name() == self.cookie_name(),
            middleware.next_stage() == service,
    {
        LogoutWrapperMiddleware {
            service: Rc::new(service),
            session_cookie_name: self.session_cookie_name,
            application_context: PhantomData::<AppContext>,
            role_type: PhantomData::<RoleType>,
        }
    }
}

/// The interceptor in front of one wrapped stage.
pub struct LogoutWrapperMiddleware<ActixService, AppContext, RoleType> {
    service: Rc<ActixService>,
    session_cookie_name: &'static str,
    application_context: PhantomData<AppContext>,
    role_type: PhantomData<RoleType>,
}

impl<ActixService, AppContext, RoleType> LogoutWrapperMiddleware<
    ActixService,
    AppContext,
    RoleType,
> {
    pub closed spec fn cookie_name(&self) -> Seq<char> {
        self.session_cookie_name@
    }

    pub closed spec fn next_stage(&self) -> ActixService {
        *self.service
    }

    /// The name of the cookie that carries the session identifier.
    pub fn session_cookie_name(&self) -> (name: &'static str)
        ensures
            name@ == self.cookie_name(),
    {
        self.session_cookie_name
    }

    /// The wrapped stage, to invoke once a request has passed.
    pub fn service(&self) -> (service: &Rc<ActixService>)
        ensures
            **service == self.next_stage(),
    {
        &self.service
    }
}

impl<ActixService, AppContext: 'static, RoleType> LogoutWrapperMiddleware<
    ActixService,
    AppContext,
    RoleType,
> {
    /// First half of a pass: which session to ask the session service for.
    /// `presented` is the value of the request's cookie `session_cookie_name()`,
    /// `None` where the request carries no such cookie. A request without the
    /// cookie is unauthorized; one with the cookie but without a registered
    /// application context is a fault of the host. Either way the pass ends
    /// here: the session service is not asked and the wrapped stage is not
    /// invoked. Otherwise exactly one lookup is handed out, for the presented
    /// value on the registered context.
    pub fn identify(
        &self,
        req: &actix_web::dev::ServiceRequest,
        presented: Option<String>,
    ) -> (result: Result<SessionLookup<AppContext>, AuthError>)
        ensures
            presented is None ==> result == Err::<SessionLookup<AppContext>, AuthError>(
                AuthError::UnknownSessionCookie,
            ),
            presented is Some ==> exists|found: Option<actix_web::web::Data<AppContext>>| #[trigger]
                registry_gave(*req, found) && result == lookup_outcome(presented, found),
            presented is None ==> result is Err && result->Err_0.status() == 401,
            result matches Err(e) ==> e.status() == 401 || e.status() == 500,
    {
        session_lookup::<AppContext>(req, presented)
    }

    /// Second half of a pass, on what the session service answered. Every
    /// resolved session passes, whatever its roles: the request's cache is
    /// populated with it and the wrapped stage is to be invoked. No cookie is
    /// handed out: clearing it is the business of the logout handler. Without
    /// a session the pass ends with an error, and the request's state is as it
    /// was.
    pub fn authorize<SessionType: SecuredSession<Role = RoleType>>(
        &self,
        state: &mut RequestState<SessionType>,
        found: Option<SessionType>,
    ) -> (result: Result<(), AuthError>)
        ensures
            match found {
                None => result == Err::<(), AuthError>(AuthError::SessionNotFound) && *final(state)
                    == *old(state),
                Some(resolved) => {
                    &&& result == Ok::<(), AuthError>(())
                    &&& final(state).populated_with(resolved)
                },
            },
            found is None ==> result is Err && result->Err_0.status() == 401,
    {
        let resolved = session(found)?;
        Session::set_session(state, resolved);
        Ok(())
    }
}

} // verus!
