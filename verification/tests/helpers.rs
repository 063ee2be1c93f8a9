use actix_session_security::utils::{
    application_context, context_or_error, forbidden_error, session, session_id, session_lookup,
};
use actix_session_security::{AuthError, SecuredSession, SessionRole};
use actix_web::cookie::Cookie;
use actix_web::test::TestRequest;
use actix_web::web::Data;

#[derive(Debug, Clone, PartialEq, Eq)]
enum Role {
    Editor,
}

impl SessionRole for Role {}

#[derive(Debug, Clone, PartialEq)]
struct Account {
    id: u32,
}

impl SecuredSession for Account {
    type Role = Role;

    fn roles(&self) -> &[Role] {
        &[Role::Editor]
    }

    fn guest_cookie() -> Cookie<'static> {
        Cookie::new("sid", "guest")
    }

    fn logined_cookie(&self) -> Cookie<'static> {
        Cookie::new("sid", format!("account-{}", self.id))
    }
}

struct App {
    limit: u16,
}

#[test]
fn session_id_is_the_presented_value() {
    assert_eq!(session_id(Some("abc".to_owned())), Ok("abc".to_owned()));
    assert_eq!(session_id(Some("s-1".to_owned())), Ok("s-1".to_owned()));
}

#[test]
fn session_id_may_be_empty() {
    assert_eq!(session_id(Some(String::new())), Ok(String::new()));
}

#[test]
fn session_id_fails_without_the_cookie() {
    assert_eq!(session_id(None), Err(AuthError::UnknownSessionCookie));
    assert_eq!(AuthError::UnknownSessionCookie.status_code(), 401);
}

#[test]
fn application_context_is_found_where_registered() {
    let req = TestRequest::default().app_data(Data::new(App { limit: 8080 })).to_srv_request();
    let found = application_context::<App>(&req).ok().expect("registered");
    assert_eq!(found.limit, 8080);
}

#[test]
fn application_context_of_another_type_does_not_count() {
    let req = TestRequest::default().app_data(Data::new(17u32)).to_srv_request();
    assert_eq!(application_context::<App>(&req).err(), Some(AuthError::UnknownApplicationContext));
    assert!(application_context::<u32>(&req).is_ok());
}

#[test]
fn application_context_fails_where_none_is_registered() {
    let req = TestRequest::default().to_srv_request();
    let error = application_context::<App>(&req).err().expect("not registered");
    assert_eq!(error, AuthError::UnknownApplicationContext);
    assert_eq!(error.status_code(), 500);
}

#[test]
fn context_or_error_maps_absence_to_the_error() {
    assert_eq!(
        context_or_error::<App>(None).err(),
        Some(AuthError::UnknownApplicationContext)
    );
    let kept = context_or_error(Some(Data::new(App { limit: 1 }))).ok().expect("present");
    assert_eq!(kept.limit, 1);
}

#[test]
fn session_maps_absence_to_not_found() {
    assert_eq!(session::<Account>(None), Err(AuthError::SessionNotFound));
    assert_eq!(session(Some(Account { id: 3 })), Ok(Account { id: 3 }));
}

#[test]
fn forbidden_error_is_no_grants() {
    assert_eq!(forbidden_error(), AuthError::NoGrants);
    assert_eq!(forbidden_error().status_code(), 403);
    assert_eq!(forbidden_error().message(), "No grants");
}

#[test]
fn session_lookup_names_the_session_and_the_context() {
    let req = TestRequest::default().app_data(Data::new(App { limit: 9 })).to_srv_request();
    let lookup =
        session_lookup::<App>(&req, Some("abc".to_owned())).ok().expect("both are there");
    assert_eq!(lookup.session_id, "abc");
    assert_eq!(lookup.application.limit, 9);
}

#[test]
fn session_lookup_fails_on_the_cookie_first() {
    let req = TestRequest::default().to_srv_request();
    assert_eq!(
        session_lookup::<App>(&req, None).err(),
        Some(AuthError::UnknownSessionCookie)
    );
    assert_eq!(
        session_lookup::<App>(&req, Some("abc".to_owned())).err(),
        Some(AuthError::UnknownApplicationContext)
    );
}

#[test]
fn session_lookup_without_cookie_fails_even_with_a_context() {
    let req = TestRequest::default().app_data(Data::new(App { limit: 9 })).to_srv_request();
    assert_eq!(
        session_lookup::<App>(&req, None).err(),
        Some(AuthError::UnknownSessionCookie)
    );
}

#[test]
fn every_error_has_its_status_and_message() {
    assert_eq!(AuthError::UnknownSessionCookie.status_code(), 401);
    assert_eq!(AuthError::UnknownSessionCookie.message(), "Unknown session cookie");
    assert_eq!(AuthError::UnknownApplicationContext.status_code(), 500);
    assert_eq!(AuthError::UnknownApplicationContext.message(), "Unknown application context");
    assert_eq!(AuthError::SessionNotFound.status_code(), 401);
    assert_eq!(AuthError::SessionNotFound.message(), "Session not found");
    assert_eq!(AuthError::NoGrants.status_code(), 403);
    assert_eq!(AuthError::NoGrants.message(), "No grants");
}

#[test]
fn every_rejection_has_an_empty_body() {
    assert_eq!(AuthError::UnknownSessionCookie.response_body(), "");
    assert_eq!(AuthError::UnknownApplicationContext.response_body(), "");
    assert_eq!(AuthError::SessionNotFound.response_body(), "");
    assert_eq!(AuthError::NoGrants.response_body(), "");
}
