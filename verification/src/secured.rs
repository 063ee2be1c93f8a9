//! The interceptor for routes that ask for a role.

use std::marker::PhantomData;
use std::rc::Rc;

use vstd::prelude::*;
use vstd::std_specs::cmp::PartialEqSpec;

use crate::error::AuthError;
use crate::role::SessionRole;
use crate::secured_session::{access_decided, SecuredSession};
use crate::session::{RequestState, Session};
use crate::utils::{
    forbidden_error, lookup_outcome, registry_gave, session, session_lookup, SessionLookup,
};

verus! {

/// Makes the interceptor for a route that is open to any session holding one of
/// `roles`, identified by the cookie `session_cookie_key`.
pub fn secured_wrapper<AppContext, RoleType>(
    session_cookie_key: &'static str,
    roles: &'static [RoleType],
) -> (wrapper: SecuredWrapper<AppContext, RoleType>)
    ensures
        wrapper.cookie_name() == session_cookie_key@,
        wrapper.required_roles() == roles@,
{
    SecuredWrapper::new(session_cookie_key, roles)
}

/// The configuration of a secured route: the name of the session cookie and
/// the roles of which a session needs one.
pub struct SecuredWrapper<AppContext, RoleType: 'static> {
    session_cookie_name: &'static str,
    roles: &'static [RoleType],
    application_context: PhantomData<AppContext>,
}

impl<AppContext, RoleType> SecuredWrapper<AppContext, RoleType> {
    pub closed spec fn cookie_name(&self) -> Seq<char> {
        self.session_cookie_name@
    }

    pub closed spec fn required_roles(&self) -> Seq<RoleType> {
        self.roles@
    }

    pub fn new(session_cookie_name: &'static str, roles: &'static [RoleType]) -> (wrapper: Self)
        ensures
            wrapper.cookie_name() == session_cookie_name@,
            wrapper.required_roles() == roles@,
    {
        Self { session_cookie_name, roles, application_context: PhantomData::<AppContext> }
    }

    /// Wraps `service`, the next stage, into the interceptor.
    pub fn new_transform<ActixService>(&self, service: ActixService) -> (middleware:
        SecuredWrapperMiddleware<ActixService, AppContext, RoleType>)
        ensures
            middleware.cookie_name() == self.cookie_name(),
            middleware.required_roles() == self.required_roles(),
            middleware.next_stage() == service,
    {
        SecuredWrapperMiddleware {
            service: Rc::new(service),
            session_cookie_name: self.session_cookie_name,
            roles: self.roles,
            application_context: PhantomData::<AppContext>,
        }
    }
}

/// The interceptor in front of one wrapped stage.
pub struct SecuredWrapperMiddleware<ActixService, AppContext, RoleType: 'static> {
    service: Rc<ActixService>,
    session_cookie_name: &'static str,
    roles: &'static [RoleType],
    application_context: PhantomData<AppContext>,
}

impl<ActixService, AppContext, RoleType> SecuredWrapperMiddleware<
    ActixService,
    AppContext,
    RoleType,
> {
    pub closed spec fn cookie_name(&self) -> Seq<char> {
        self.session_cookie_name@
    }

    pub closed spec fn required_roles(&self) -> Seq<RoleType> {
        self.roles@
    }

    pub closed spec fn next_stage(&self) -> ActixService {
        *self.service
    }

    /// The name of the cookie that carries the session identifier.
    pub fn session_cookie_name(&self) -> (name: &'static str)
        ensures
            name@ == self.cookie_name(),
    {
        self.session_cookie_name
    }

    /// The wrapped stage, to invoke once a request has passed.
    pub fn service(&self) -> (service: &Rc<ActixService>)
        ensures
            **service == self.next_stage(),
    {
        &self.service
    }
}

impl<ActixService, AppContext: 'static, RoleType: SessionRole> SecuredWrapperMiddleware<
    ActixService,
    AppContext,
    RoleType,
> {
    /// First half of a pass: which session to ask the session service for.
    /// `presented` is the value of the request's cookie `session_cookie_name()`,
    /// `None` where the request carries no such cookie. A request without the
    /// cookie is unauthorized; one with the cookie but without a registered
    /// application context is a fault of the host. Either way the pass ends
    /// here: the session service is not asked and the wrapped stage is not
    /// invoked. Otherwise exactly one lookup is handed out, for the presented
    /// value on the registered context.
    pub fn identify(
        &self,
        req: &actix_web::dev::ServiceRequest,
        presented: Option<String>,
    ) -> (result: Result<SessionLookup<AppContext>, AuthError>)
        ensures
            presented is None ==> result == Err::<SessionLookup<AppContext>, AuthError>(
                AuthError::UnknownSessionCookie,
            ),
            presented is Some ==> exists|found: Option<actix_web::web::Data<AppContext>>| #[trigger]
                registry_gave(*req, found) && result == lookup_outcome(presented, found),
            presented is None ==> result is Err && result->Err_0.status() == 401,
            result matches Err(e) ==> e.status() == 401 || e.status() == 500,
    {
        session_lookup::<AppContext>(req, presented)
    }

    /// Second half of a pass, on what the session service answered. A session
    /// that holds one of the required roles passes: the request's cache is
    /// populated with it, and the cookie to set on the response, once the
    /// wrapped stage has answered, is handed out. Otherwise the pass ends with
    /// an error, and the request's state is as it was.
    pub fn authorize<SessionType: SecuredSession<Role = RoleType>>(
        &self,
        state: &mut RequestState<SessionType>,
        found: Option<SessionType>,
    ) -> (result: Result<actix_web::cookie::Cookie<'static>, AuthError>)
        ensures
            match found {
                None => result == Err::<actix_web::cookie::Cookie<'static>, AuthError>(
                    AuthError::SessionNotFound,
                ),
                Some(resolved) => {
                    &&& RoleType::obeys_eq_spec() ==> access_decided(
                        resolved,
                        self.required_roles(),
                        result is Ok,
                    )
                    &&& result matches Ok(refreshed) ==> {
                        &&& call_ensures(SessionType::logined_cookie, (&resolved,), refreshed)
                        &&& final(state).populated_with(resolved)
                    }
                    &&& result matches Err(e) ==> e == AuthError::NoGrants
                },
            },
            found is None ==> result is Err && result->Err_0.status() == 401,
            result matches Err(e) ==> e.status() == 401 || e.status() == 403,
            result is Err ==> *final(state) == *old(state),
    {
        let resolved = session(found)?;
        if resolved.has_access(self.roles) {
            let refreshed = resolved.logined_cookie();
            Session::set_session(state, resolved);
            Ok(refreshed)
        } else {
            Err(forbidden_error())
        }
    }
}

} // verus!
