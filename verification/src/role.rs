//! Roles and the role-matching decision.

use vstd::prelude::*;
use vstd::std_specs::cmp::PartialEqSpec;

verus! {

/// An identity tag carried by a session. Roles are only ever compared with `==`.
pub trait SessionRole: PartialEq {

}

/// Some element of `roles` compares equal to `role`.
pub open spec fn holds_role<R: SessionRole>(roles: Seq<R>, role: R) -> bool {
    exists|j: int| 0 <= j < roles.len() && (#[trigger] roles[j]).eq_spec(&role)
}

/// `held` and `required` have a role in common: some required role compares
/// equal to some held one.
pub open spec fn roles_intersect<R: SessionRole>(held: Seq<R>, required: Seq<R>) -> bool {
    exists|i: int| 0 <= i < held.len() && holds_role(required, #[trigger] held[i])
}

/// Whether `role` occurs in `roles`.
pub fn contains_role<R: SessionRole>(roles: &[R], role: &R) -> (found: bool)
    ensures
        R::obeys_eq_spec() ==> found == holds_role(roles@, *role),
{
    let mut j: usize = 0;
    while j < roles.len()
        invariant
            j <= roles.len(),
            R::obeys_eq_spec() ==> forall|k: int|
                0 <= k < j ==> !(#[trigger] roles@[k]).eq_spec(role),
        decreases roles.len() - j,
    {
        if roles[j] == *role {
            return true;
        }
        j += 1;
    }
    false
}

/// Whether a holder of `current_roles` is let onto a route that asks for any one of
/// `assigned_roles`.
pub fn roles_match<R: SessionRole>(current_roles: &[R], assigned_roles: &[R]) -> (matching: bool)
    ensures
        R::obeys_eq_spec() ==> matching == roles_intersect(current_roles@, assigned_roles@),
{
    let mut i: usize = 0;
    while i < current_roles.len()
        invariant
            i <= current_roles.len(),
            R::obeys_eq_spec() ==> forall|k: int|
                0 <= k < i ==> !holds_role(assigned_roles@, #[trigger] current_roles@[k]),
        decreases current_roles.len() - i,
    {
        if contains_role(assigned_roles, &current_roles[i]) {
            return true;
        }
        i += 1;
    }
    false
}

/// Two lists with the same elements hold the same roles.
proof fn lemma_holds_role_same_elements<R: SessionRole>(a: Seq<R>, b: Seq<R>, role: R)
    requires
        forall|x: R| a.contains(x) ==> b.contains(x),
        holds_role(a, role),
    ensures
        holds_role(b, role),
{
    let j = choose|j: int| 0 <= j < a.len() && (#[trigger] a[j]).eq_spec(&role);
    assert(a.contains(a[j]));
    let k = choose|k: int| 0 <= k < b.len() && b[k] == a[j];
    assert(b[k].eq_spec(&role));
}

/// Two lists with the same elements intersect the same lists.
proof fn lemma_intersect_same_elements<R: SessionRole>(
    held: Seq<R>,
    held2: Seq<R>,
    required: Seq<R>,
    required2: Seq<R>,
)
    requires
        forall|x: R| held.contains(x) ==> held2.contains(x),
        forall|x: R| required.contains(x) ==> required2.contains(x),
        roles_intersect(held, required),
    ensures
        roles_intersect(held2, required2),
{
    let i = choose|i: int| 0 <= i < held.len() && holds_role(required, #[trigger] held[i]);
    lemma_holds_role_same_elements(required, required2, held[i]);
    assert(held.contains(held[i]));
    let k = choose|k: int| 0 <= k < held2.len() && held2[k] == held[i];
    assert(holds_role(required2, held2[k]));
}

/// Two lists that are permutations of each other have the same elements.
proof fn lemma_permutation_same_elements<R>(a: Seq<R>, b: Seq<R>)
    requires
        a.to_multiset() == b.to_multiset(),
    ensures
        forall|x: R| a.contains(x) <==> b.contains(x),
{
    a.to_multiset_ensures();
    b.to_multiset_ensures();
    assert forall|x: R| a.contains(x) <==> b.contains(x) by {
        assert(a.contains(x) <==> a.to_multiset().count(x) > 0);
        assert(b.contains(x) <==> b.to_multiset().count(x) > 0);
    }
}

/// The order in which roles are listed never affects the decision: listing
/// the required roles, or the held ones, in another order gives the same
/// answer.
pub proof fn lemma_role_order_is_irrelevant<R: SessionRole>(
    held: Seq<R>,
    held_reordered: Seq<R>,
    required: Seq<R>,
    required_reordered: Seq<R>,
)
    requires
        held.to_multiset() == held_reordered.to_multiset(),
        required.to_multiset() == required_reordered.to_multiset(),
    ensures
        roles_intersect(held, required) == roles_intersect(held_reordered, required_reordered),
{
    lemma_permutation_same_elements(held, held_reordered);
    lemma_permutation_same_elements(required, required_reordered);
    if roles_intersect(held, required) {
        lemma_intersect_same_elements(held, held_reordered, required, required_reordered);
    }
    if roles_intersect(held_reordered, required_reordered) {
        lemma_intersect_same_elements(held_reordered, held, required_reordered, required);
    }
}

/// Two lists that are equal as sets have the same elements.
proof fn lemma_set_same_elements<R>(a: Seq<R>, b: Seq<R>)
    requires
        a.to_set() == b.to_set(),
    ensures
        forall|x: R| a.contains(x) <==> b.contains(x),
{
    assert forall|x: R| a.contains(x) <==> b.contains(x) by {
        assert(a.to_set().contains(x) <==> a.contains(x));
        assert(b.to_set().contains(x) <==> b.contains(x));
    }
}

/// Repeating a role, or listing further roles that nobody holds, changes
/// nothing: the decision depends only on which roles occur in each list.
pub proof fn lemma_decision_depends_on_elements_only<R: SessionRole>(
    held: Seq<R>,
    held2: Seq<R>,
    required: Seq<R>,
    required2: Seq<R>,
)
    requires
        held.to_set() == held2.to_set(),
        required.to_set() == required2.to_set(),
    ensures
        roles_intersect(held, required) == roles_intersect(held2, required2),
{
    lemma_set_same_elements(held, held2);
    lemma_set_same_elements(required, required2);
    if roles_intersect(held, required) {
        lemma_intersect_same_elements(held, held2, required, required2);
    }
    if roles_intersect(held2, required2) {
        lemma_intersect_same_elements(held2, held, required2, required);
    }
}

/// Where `==` on roles is plain equality of values, two lists intersect
/// exactly when, taken as sets, they are not disjoint.
pub proof fn lemma_intersect_is_set_intersection<R: SessionRole>(held: Seq<R>, required: Seq<R>)
    requires
        forall|a: R, b: R| #[trigger] a.eq_spec(&b) <==> a == b,
    ensures
        roles_intersect(held, required) <==> !held.to_set().disjoint(required.to_set()),
{
    if roles_intersect(held, required) {
        let i = choose|i: int| 0 <= i < held.len() && holds_role(required, #[trigger] held[i]);
        let j = choose|j: int| 0 <= j < required.len() && (#[trigger] required[j]).eq_spec(&held[i]);
        assert(held.contains(held[i]));
        assert(required.contains(required[j]));
        assert(held.to_set().contains(held[i]) && required.to_set().contains(held[i]));
    }
    if !held.to_set().disjoint(required.to_set()) {
        let r = choose|r: R| held.to_set().contains(r) && required.to_set().contains(r);
        let i = choose|i: int| 0 <= i < held.len() && held[i] == r;
        let j = choose|j: int| 0 <= j < required.len() && required[j] == r;
        assert(required[j].eq_spec(&held[i]));
        assert(holds_role(required, held[i]));
    }
}

/// No role is held, or none is required: nothing is granted.
pub proof fn lemma_empty_lists_never_intersect<R: SessionRole>(roles: Seq<R>)
    ensures
        !roles_intersect(Seq::<R>::empty(), roles),
        !roles_intersect(roles, Seq::<R>::empty()),
{
}

} // verus!
