//! Cookie-based session authentication and role-based access control in
//! front of actix-web request handlers.
//!
//! An interceptor takes two steps per request. `identify` takes the value of
//! the session cookie, looks up the application context of the request, and
//! says which session to ask the session service for. `authorize` takes the
//! service's answer, decides whether the request goes on to the wrapped stage,
//! and populates the request's session cache. Reading the cookie off the
//! request, asking the service and invoking the wrapped stage are left to the
//! caller.
//!
//! - [`role`]: roles and the role-matching decision
//! - [`secured_session`]: what a session has to offer
//! - [`session`]: the per-request session cache
//! - [`secured`], [`logout`]: the two interceptors
//! - [`utils`]: the resolution steps that both share
//! - [`request`]: the actix-web types and the lookup of the application context
//! - [`error`]: the reasons for rejecting a request

pub mod error;
pub mod logout;
pub mod request;
pub mod role;
pub mod secured;
pub mod secured_session;
pub mod session;
pub mod utils;

pub use error::AuthError;
pub use logout::{logout_wrapper, LogoutWrapper, LogoutWrapperMiddleware};
pub use role::SessionRole;
pub use secured::{secured_wrapper, SecuredWrapper, SecuredWrapperMiddleware};
pub use secured_session::SecuredSession;
pub use session::{RequestState, Session};
pub use utils::SessionLookup;
