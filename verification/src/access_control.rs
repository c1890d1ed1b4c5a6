use vstd::prelude::*;

use crate::errors::ErrorCode;
use crate::state::AccountId;
use crate::state::Controller;
use crate::state::UserRole;

verus! {

/// Creates the singleton controller, recording the administrator identity.
///
/// The external store guarantees single creation: a second attempt fails
/// with its own record-already-exists condition before this runs.
pub fn initialize_access_control(default_admin: AccountId) -> (controller: Controller)
    ensures
        controller.default_admin == default_admin,
{
    Controller { default_admin }
}

/// Linear membership test on an identity list.
fn contains_account(v: &Vec<AccountId>, x: AccountId) -> (found: bool)
    ensures
        found == v@.contains(x),
{
    let mut i: usize = 0;
    while i < v.len()
        invariant
            i <= v.len(),
            forall|j: int| 0 <= j < i ==> v@[j] != x,
        decreases v.len() - i,
    {
        if v[i] == x {
            return true;
        }
        i += 1;
    }
    false
}

/// Linear search for an action name in a role's fixed action list.
fn contains_action(actions: &Vec<String>, target: &String) -> (found: bool)
    ensures
        found == exists|i: int| 0 <= i < actions@.len() && actions@[i]@ == target@,
{
    let mut i: usize = 0;
    while i < actions.len()
        invariant
            i <= actions.len(),
            forall|j: int| 0 <= j < i ==> actions@[j]@ != target@,
        decreases actions.len() - i,
    {
        if actions[i] == *target {
            assert(actions@[i as int]@ == target@);
            return true;
        }
        i += 1;
    }
    false
}

/// The system's sole authorization gate.
///
/// True iff `required_action` is in the role's fixed action list and
/// `user` is in the role's member list. Pure: no mutation.
pub fn has_role(user_role_account: &UserRole, user: AccountId, required_action: &str) -> (authorized: bool)
    ensures
        authorized == user_role_account.spec_has_role(user, required_action@),
{
    let target: String = required_action.to_owned();
    contains_action(&user_role_account.actions, &target) && contains_account(&user_role_account.users, user)
}

/// Creates a role named `role_name` permitting exactly `actions`, with no
/// members yet.
///
/// Only the administrator may create roles. The external store rejects a
/// second role under the same name before this runs.
pub fn create_role(
    controller: &Controller,
    controller_key: AccountId,
    admin: AccountId,
    role_name: String,
    actions: Vec<String>,
) -> (result: Result<UserRole, ErrorCode>)
    ensures
        match result {
            Ok(role) => {
                &&& admin == controller.default_admin
                &&& role.controller == controller_key
                &&& role.role_name == role_name
                &&& role.actions == actions
                &&& role.users@ == Seq::<AccountId>::empty()
                &&& role.wf()
            },
            Err(e) => {
                &&& admin != controller.default_admin
                &&& e == ErrorCode::Unauthorized
            },
        },
{
    if controller.default_admin != admin {
        return Err(ErrorCode::Unauthorized);
    }
    let role = UserRole { controller: controller_key, role_name, actions, users: Vec::new() };
    Ok(role)
}

/// Member list after one assignment: unchanged if `user` is already a
/// member, else extended by `user`.
pub open spec fn spec_assign_user(members: Seq<AccountId>, user: AccountId) -> Seq<AccountId> {
    if members.contains(user) {
        members
    } else {
        members.push(user)
    }
}

/// Adds `user` to the role's member list; a no-op if already a member.
///
/// Only the administrator may assign users.
pub fn assign_user_to_role(
    controller: &Controller,
    admin: AccountId,
    user_role: &mut UserRole,
    user: AccountId,
) -> (result: Result<(), ErrorCode>)
    requires
        old(user_role).wf(),
    ensures
        final(user_role).wf(),
        final(user_role).controller == old(user_role).controller,
        final(user_role).role_name == old(user_role).role_name,
        final(user_role).actions == old(user_role).actions,
        match result {
            Ok(()) => {
                &&& admin == controller.default_admin
                &&& final(user_role).users@ == spec_assign_user(old(user_role).users@, user)
                &&& final(user_role).spec_is_member(user)
            },
            Err(e) => {
                &&& admin != controller.default_admin
                &&& e == ErrorCode::Unauthorized
                &&& *final(user_role) == *old(user_role)
            },
        },
{
    if controller.default_admin != admin {
        return Err(ErrorCode::Unauthorized);
    }
    if !contains_account(&user_role.users, user) {
        user_role.users.push(user);
        assert(user_role.users@.last() == user);
        assert(user_role.users@.contains(user));
    }
    Ok(())
}

/// Law: assignment is idempotent. Assigning the same user twice yields the
/// same member list as assigning once.
pub proof fn lemma_assign_user_idempotent(members: Seq<AccountId>, user: AccountId)
    ensures
        spec_assign_user(spec_assign_user(members, user), user) == spec_assign_user(members, user),
{
    if !members.contains(user) {
        assert(members.push(user)[members.len() as int] == user);
        assert(members.push(user).contains(user));
    }
}

/// Member list reached from an empty role by assigning `assigned` in order.
pub open spec fn members_after_assignments(assigned: Seq<AccountId>) -> Seq<AccountId>
    decreases assigned.len(),
{
    if assigned.len() == 0 {
        Seq::empty()
    } else {
        spec_assign_user(members_after_assignments(assigned.drop_last()), assigned.last())
    }
}

/// Law: after any sequence of assignments on a fresh role, exactly the
/// assigned users are members.
pub proof fn lemma_members_are_exactly_assigned(assigned: Seq<AccountId>, user: AccountId)
    ensures
        members_after_assignments(assigned).contains(user) == assigned.contains(user),
    decreases assigned.len(),
{
    if assigned.len() == 0 {
        assert(!assigned.contains(user));
        assert(!members_after_assignments(assigned).contains(user));
    } else {
        let prefix = assigned.drop_last();
        let last = assigned.last();
        lemma_members_are_exactly_assigned(prefix, user);
        let before = members_after_assignments(prefix);
        if !before.contains(last) {
            assert(before.push(last)[before.len() as int] == last);
            assert forall|x: AccountId| before.push(last).contains(x) == (before.contains(x)
                || x == last) by {
                if before.contains(x) {
                    let i = choose|i: int| 0 <= i < before.len() && before[i] == x;
                    assert(before.push(last)[i] == x);
                }
                if before.push(last).contains(x) {
                    let i = choose|i: int|
                        0 <= i < before.push(last).len() && before.push(last)[i] == x;
                    if i < before.len() {
                        assert(before[i] == x);
                    }
                }
            }
        }
        assert forall|x: AccountId| assigned.contains(x) == (prefix.contains(x) || x == last) by {
            if prefix.contains(x) {
                let i = choose|i: int| 0 <= i < prefix.len() && prefix[i] == x;
                assert(assigned[i] == x);
            }
            if x == last {
                assert(assigned[assigned.len() - 1] == x);
            }
            if assigned.contains(x) {
                let i = choose|i: int| 0 <= i < assigned.len() && assigned[i] == x;
                if i < assigned.len() - 1 {
                    assert(prefix[i] == x);
                }
            }
        }
    }
}

/// Law: a user never assigned to a role holds no authorization under it,
/// whatever the action asked about.
pub proof fn lemma_unassigned_user_has_no_role(
    role: UserRole,
    assigned: Seq<AccountId>,
    user: AccountId,
    action: Seq<char>,
)
    requires
        role.users@ == members_after_assignments(assigned),
        !assigned.contains(user),
    ensures
        !role.spec_has_role(user, action),
{
    lemma_members_are_exactly_assigned(assigned, user);
}

/// Law: an action outside the role's fixed action list is never
/// authorized, regardless of membership.
pub proof fn lemma_absent_action_has_no_role(role: UserRole, user: AccountId, action: Seq<char>)
    requires
        !role.spec_has_action(action),
    ensures
        !role.spec_has_role(user, action),
{
}

} // verus!
