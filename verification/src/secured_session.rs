//! What the library asks of a session.

use vstd::prelude::*;
use vstd::std_specs::cmp::PartialEqSpec;

use crate::role::{roles_intersect, roles_match, SessionRole};

verus! {

/// A resolved session: the roles it carries and the cookies that stand for it.
pub trait SecuredSession: Sized {
    type Role: SessionRole;

    /// The roles that the session carries.
    fn roles(&self) -> &[Self::Role];

    /// Whether the session holds at least one of `assigned_roles`.
    fn has_access(&self, assigned_roles: &[Self::Role]) -> (granted: bool)
        ensures
            Self::Role::obeys_eq_spec() ==> exists|held: &[Self::Role]| #[trigger]
                call_ensures(Self::roles, (self,), held) && granted == roles_intersect(
                    held@,
                    assigned_roles@,
                ),
    {
        Self::is_roles_matching(self.roles(), assigned_roles)
    }

    /// Whether `current_roles` and `assigned_roles` have a role in common.
    fn is_roles_matching(current_roles: &[Self::Role], assigned_roles: &[Self::Role]) -> (matching:
        bool)
        ensures
            Self::Role::obeys_eq_spec() ==> matching == roles_intersect(
                current_roles@,
                assigned_roles@,
            ),
    {
        roles_match(current_roles, assigned_roles)
    }

    /// The cookie that stands for "not logged in".
    fn guest_cookie() -> actix_web::cookie::Cookie<'static>;

    /// The cookie that stands for this session.
    fn logined_cookie(&self) -> actix_web::cookie::Cookie<'static>;
}

/// `granted` is the outcome of checking `session` against `required`: the
/// roles that `session.roles()` gave do, or do not, intersect `required`.
pub open spec fn access_decided<S: SecuredSession>(
    session: S,
    required: Seq<S::Role>,
    granted: bool,
) -> bool {
    exists|held: &[S::Role]| #[trigger]
        call_ensures(S::roles, (&session,), held) && granted == roles_intersect(held@, required)
}

} // verus!
