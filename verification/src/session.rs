//! The session cache of one request.

use vstd::prelude::*;
use vstd::std_specs::cmp::PartialEqSpec;

use crate::secured_session::{access_decided, SecuredSession};

verus! {

/// The session cache of a request: one cell that holds the session resolved
/// for the request, or nothing while none has been resolved. A request has at
/// most one cell, and every read goes through it, so all readers see the same
/// session.
pub struct Session<SessionType> {
    session: Option<SessionType>,
}

/// The per-request state that the cache is attached to: one slot for the
/// cell, empty until the cache is first asked for.
pub struct RequestState<SessionType> {
    pub cache: Option<Session<SessionType>>,
}

impl<SessionType> View for Session<SessionType> {
    type V = Option<SessionType>;

    /// The session that the cell holds, if one was resolved.
    closed spec fn view(&self) -> Option<SessionType> {
        self.session
    }
}

impl<SessionType> RequestState<SessionType> {
    /// The state of a request that no interceptor or handler has touched yet.
    pub fn new() -> (state: Self)
        ensures
            state.cache is None,
    {
        RequestState { cache: None }
    }

    /// The session that readers of this request see: `None` both before the
    /// cache is attached and while it is unpopulated.
    pub open spec fn session(&self) -> Option<SessionType> {
        match self.cache {
            Some(cell) => cell@,
            None => None,
        }
    }

    /// A read of the cache in this state reads `cell` and leaves the state
    /// `after`: the attached cell where there is one, with the state
    /// untouched, or else a new empty cell, which is attached.
    pub open spec fn read_gives(&self, after: Self, cell: Session<SessionType>) -> bool {
        &&& after.cache == Some(cell)
        &&& self.cache is Some ==> after == *self
        &&& self.cache is None ==> cell@ is None
    }

    /// The cache is attached and holds `session`.
    pub open spec fn populated_with(&self, session: SessionType) -> bool {
        self.cache is Some && self.session() == Some(session)
    }
}

/// Reading is idempotent: of two reads in a row the second reads the very
/// cell that the first did and changes nothing, and both read the session
/// that the request held before.
pub proof fn lemma_reads_agree<SessionType>(
    before: RequestState<SessionType>,
    between: RequestState<SessionType>,
    after: RequestState<SessionType>,
    first: Session<SessionType>,
    second: Session<SessionType>,
)
    requires
        before.read_gives(between, first),
        between.read_gives(after, second),
    ensures
        second == first,
        after == between,
        first@ == before.session(),
        after.session() == before.session(),
{
}

/// Once the cache is populated, every read sees the session it was populated
/// with, however often the cache was read before, and leaves the state as it
/// is.
pub proof fn lemma_read_after_population<SessionType>(
    populated: RequestState<SessionType>,
    after: RequestState<SessionType>,
    session: SessionType,
    cell: Session<SessionType>,
)
    requires
        populated.populated_with(session),
        populated.read_gives(after, cell),
    ensures
        cell@ == Some(session),
        after == populated,
        after.populated_with(session),
{
}

impl<SessionType: SecuredSession> Session<SessionType> {
    /// Populates the request's cache with `session_object`: the slot of the
    /// attached cell is overwritten as a whole, and a cell is attached first
    /// where the request has none. Every later read sees `session_object`.
    pub fn set_session(state: &mut RequestState<SessionType>, session_object: SessionType)
        ensures
            final(state).populated_with(session_object),
    {
        match &mut state.cache {
            Some(cell) => {
                cell.session = Some(session_object);
            },
            None => {
                state.cache = Some(Session { session: Some(session_object) });
            },
        }
    }

    /// The request's cache: the cell already attached, or else a new empty
    /// one, which is attached before it is handed out.
    pub fn get_session(state: &mut RequestState<SessionType>) -> (cell: &Self)
        ensures
            old(state).read_gives(*final(state), *cell),
            cell@ == old(state).session(),
            final(state).session() == old(state).session(),
    {
        if state.cache.is_none() {
            state.cache = Some(Session { session: None });
        }
        state.cache.as_ref().unwrap()
    }

    /// Whether a session was resolved for the request.
    pub fn is_authorized(&self) -> (authorized: bool)
        ensures
            authorized == self@.is_some(),
    {
        self.session.is_some()
    }

    /// Whether the resolved session holds at least one of `assigned_roles`.
    /// Without a session nothing is granted.
    pub fn has_access(&self, assigned_roles: &[SessionType::Role]) -> (granted: bool)
        ensures
            self@ is None ==> !granted,
            SessionType::Role::obeys_eq_spec() ==> (self@ matches Some(session) ==> access_decided(
                session,
                assigned_roles@,
                granted,
            )),
    {
        match self.as_inner() {
            Some(session) => session.has_access(assigned_roles),
            None => false,
        }
    }

    /// The cookie to hand to the client: the session's own where there is a
    /// session, the guest cookie where there is none.
    pub fn cookie(&self) -> (cookie: actix_web::cookie::Cookie<'static>)
        ensures
            match self@ {
                Some(session) => call_ensures(SessionType::logined_cookie, (&session,), cookie),
                None => call_ensures(SessionType::guest_cookie, (), cookie),
            },
    {
        match self.as_inner() {
            Some(session) => session.logined_cookie(),
            None => SessionType::guest_cookie(),
        }
    }

    /// The resolved session itself, by reference.
    pub fn as_inner(&self) -> (inner: &Option<SessionType>)
        ensures
            *inner == self@,
    {
        &self.session
    }
}

} // verus!
