use actix_session_security::{RequestState, SecuredSession, Session, SessionRole};
use actix_web::cookie::Cookie;

#[derive(Debug, Clone, PartialEq, Eq)]
enum Role {
    Editor,
    Admin,
}

impl SessionRole for Role {}

#[derive(Debug, Clone, PartialEq)]
struct Account {
    id: u32,
    roles: Vec<Role>,
}

impl SecuredSession for Account {
    type Role = Role;

    fn roles(&self) -> &[Role] {
        &self.roles
    }

    fn guest_cookie() -> Cookie<'static> {
        Cookie::new("sid", "guest")
    }

    fn logined_cookie(&self) -> Cookie<'static> {
        Cookie::new("sid", format!("account-{}", self.id))
    }
}

fn editor() -> Account {
    Account { id: 7, roles: vec![Role::Editor] }
}

fn address_of(cell: &Session<Account>) -> String {
    format!("{:p}", cell)
}

#[test]
fn fresh_request_has_no_cache() {
    let state: RequestState<Account> = RequestState::new();
    assert!(state.cache.is_none());
}

#[test]
fn first_read_attaches_an_empty_cache() {
    let mut state: RequestState<Account> = RequestState::new();
    let cell = Session::get_session(&mut state);
    assert!(!cell.is_authorized());
    assert!(cell.as_inner().is_none());
    assert!(state.cache.is_some());
}

#[test]
fn two_reads_give_the_same_instance() {
    let mut state: RequestState<Account> = RequestState::new();
    let first = address_of(Session::get_session(&mut state));
    let second = address_of(Session::get_session(&mut state));
    assert_eq!(first, second);
}

#[test]
fn two_reads_of_a_populated_cache_give_the_same_session() {
    let mut state = RequestState::new();
    Session::set_session(&mut state, editor());
    let first = address_of(Session::get_session(&mut state));
    assert_eq!(Session::get_session(&mut state).as_inner(), &Some(editor()));
    let second = address_of(Session::get_session(&mut state));
    assert_eq!(Session::get_session(&mut state).as_inner(), &Some(editor()));
    assert_eq!(first, second);
}

#[test]
fn a_session_set_after_two_reads_is_seen_by_every_reader() {
    let mut state = RequestState::new();
    assert!(!Session::get_session(&mut state).is_authorized());
    assert!(!Session::get_session(&mut state).is_authorized());
    Session::set_session(&mut state, editor());
    assert_eq!(Session::get_session(&mut state).as_inner(), &Some(editor()));
    assert_eq!(Session::get_session(&mut state).as_inner(), &Some(editor()));
}

#[test]
fn set_session_writes_the_attached_cell() {
    let mut state = RequestState::new();
    let before = address_of(Session::get_session(&mut state));
    Session::set_session(&mut state, editor());
    let after = address_of(Session::get_session(&mut state));
    assert_eq!(before, after);
    assert!(Session::get_session(&mut state).is_authorized());
}

#[test]
fn set_session_attaches_a_cell_where_there_is_none() {
    let mut state = RequestState::new();
    Session::set_session(&mut state, editor());
    assert!(state.cache.is_some());
    assert_eq!(state.cache.as_ref().map(|cell| cell.is_authorized()), Some(true));
}

#[test]
fn set_session_populates_the_cache() {
    let mut state = RequestState::new();
    Session::set_session(&mut state, editor());
    let cell = Session::get_session(&mut state);
    assert!(cell.is_authorized());
    assert_eq!(cell.as_inner(), &Some(editor()));
}

#[test]
fn set_session_replaces_the_slot_as_a_whole() {
    let mut state = RequestState::new();
    Session::set_session(&mut state, editor());
    Session::set_session(&mut state, Account { id: 9, roles: vec![Role::Admin] });
    let cell = Session::get_session(&mut state);
    assert_eq!(cell.as_inner(), &Some(Account { id: 9, roles: vec![Role::Admin] }));
}

#[test]
fn reading_does_not_populate() {
    let mut state: RequestState<Account> = RequestState::new();
    let _ = Session::get_session(&mut state);
    let _ = Session::get_session(&mut state);
    let cell = Session::get_session(&mut state);
    assert!(!cell.is_authorized());
}

#[test]
fn empty_cache_grants_nothing() {
    let mut state: RequestState<Account> = RequestState::new();
    let cell = Session::get_session(&mut state);
    assert!(!cell.has_access(&[Role::Editor, Role::Admin]));
    assert!(!cell.has_access(&[]));
}

#[test]
fn populated_cache_delegates_the_role_check() {
    let mut state = RequestState::new();
    Session::set_session(&mut state, editor());
    let cell = Session::get_session(&mut state);
    assert!(cell.has_access(&[Role::Editor]));
    assert!(cell.has_access(&[Role::Admin, Role::Editor]));
    assert!(!cell.has_access(&[Role::Admin]));
}

#[test]
fn empty_cache_gives_the_guest_cookie() {
    let mut state: RequestState<Account> = RequestState::new();
    let cell = Session::get_session(&mut state);
    assert_eq!(cell.cookie(), Cookie::new("sid", "guest"));
}

#[test]
fn populated_cache_gives_the_logged_in_cookie() {
    let mut state = RequestState::new();
    Session::set_session(&mut state, editor());
    let cell = Session::get_session(&mut state);
    assert_eq!(cell.cookie(), Cookie::new("sid", "account-7"));
}
