//! What the library takes from actix-web: the types it carries through and
//! the lookup in a request's registry of application data.

use vstd::prelude::*;

verus! {

/// actix-web's `ServiceRequest`, the request as a middleware sees it. It is
/// carried through unopened.
#[verifier::external_type_specification]
#[verifier::external_body]
pub struct ExServiceRequest(actix_web::dev::ServiceRequest);

/// actix-web's `Data<T>`, the shared handle to application state. It is
/// carried through unopened.
#[verifier::external_type_specification]
#[verifier::external_body]
#[verifier::reject_recursive_types(T)]
pub struct ExData<T: ?Sized>(actix_web::web::Data<T>);

/// actix-web's `Cookie`. Sessions make cookies and the library hands them on;
/// it never looks inside one.
#[verifier::external_type_specification]
#[verifier::external_body]
pub struct ExCookie<'c>(actix_web::cookie::Cookie<'c>);

/// `ServiceRequest::app_data` for `Data<AppContext>`, cloned: the handle to
/// the application context that the host registered for this request, if it
/// registered one. Nothing is claimed about when that is.
#[verifier::external_body]
pub(crate) fn registered_context<AppContext: 'static>(
    req: &actix_web::dev::ServiceRequest,
) -> (found: Option<actix_web::web::Data<AppContext>>) {
    req.app_data::<actix_web::web::Data<AppContext>>().cloned()
}

} // verus!
