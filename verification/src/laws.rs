//! The laws of the audit, stated and proved once for every input: no
//! administrative account ever appears as a discovery subject or owner, a
//! role assignment with an unknown definition is skipped with exactly one
//! diagnostic, and a group-targeted assignment yields exactly one
//! discovery per non-admin member.

use vstd::prelude::*;
use crate::index::lemma_user_index_non_admin;
use crate::index::user_index;
use crate::model::Group;
use crate::model::PrincipalId;
use crate::model::RoleAssignment;
use crate::model::RoleDefinition;
use crate::model::User;
use crate::model::is_admin_principal_name;
use crate::resolve::DeferredGroupAssignment;
use crate::resolve::MissingDefinition;
use crate::resolve::definition_known;
use crate::resolve::deferred_assignments;
use crate::resolve::direct_discoveries;
use crate::resolve::expanded_discoveries;
use crate::resolve::member_discoveries;
use crate::resolve::missing_definition_diagnostics;
use crate::resolve::owner_discoveries;
use crate::resolve::owner_discoveries_for;

verus! {

/// The number of principals in `members` that resolve to a non-admin
/// user under `users`.
pub open spec fn non_admin_member_count(members: Seq<PrincipalId>, users: Map<u128, User>) -> nat
    decreases members.len(),
{
    if members.len() == 0 {
        0
    } else {
        non_admin_member_count(members.drop_last(), users) + (if members.last() is User
            && users.contains_key(members.last().spec_underlying()) {
            1nat
        } else {
            0nat
        })
    }
}

/// Law: a role assignment deferred to a group yields exactly one
/// discovery per member of that group's fetched member list who is a
/// non-admin user — and none if none is.
pub proof fn lemma_member_discovery_count(
    members: Seq<PrincipalId>,
    d: DeferredGroupAssignment,
    users: Map<u128, User>,
)
    ensures
        member_discoveries(members, d, users).len() == non_admin_member_count(members, users),
    decreases members.len(),
{
    if members.len() == 0 {
    } else {
        lemma_member_discovery_count(members.drop_last(), d, users);
    }
}

/// The number of assignments in `s` whose definition identifier is absent
/// from `defs`.
pub open spec fn missing_definition_count(
    s: Seq<RoleAssignment>,
    defs: Map<u128, RoleDefinition>,
) -> nat
    decreases s.len(),
{
    if s.len() == 0 {
        0
    } else {
        missing_definition_count(s.drop_last(), defs) + (if !definition_known(s.last(), defs) {
            1nat
        } else {
            0nat
        })
    }
}

proof fn lemma_direct_definitions_known(
    s: Seq<RoleAssignment>,
    users: Map<u128, User>,
    defs: Map<u128, RoleDefinition>,
)
    ensures
        forall|k: int|
            #![trigger direct_discoveries(s, users, defs)[k]]
            0 <= k < direct_discoveries(s, users, defs).len() ==> definition_known(
                direct_discoveries(s, users, defs)[k].role_assignment,
                defs,
            ),
    decreases s.len(),
{
    if s.len() == 0 {
    } else {
        lemma_direct_definitions_known(s.drop_last(), users, defs);
        let rest = direct_discoveries(s.drop_last(), users, defs);
        let whole = direct_discoveries(s, users, defs);
        assert forall|k: int| 0 <= k < whole.len() implies definition_known(
            whole[k].role_assignment,
            defs,
        ) by {
            if k < rest.len() {
                assert(whole[k] == rest[k]);
            }
        }
    }
}

proof fn lemma_deferred_definitions_known(
    s: Seq<RoleAssignment>,
    groups: Map<u128, Group>,
    defs: Map<u128, RoleDefinition>,
)
    ensures
        forall|k: int|
            #![trigger deferred_assignments(s, groups, defs)[k]]
            0 <= k < deferred_assignments(s, groups, defs).len() ==> definition_known(
                deferred_assignments(s, groups, defs)[k].role_assignment,
                defs,
            ),
    decreases s.len(),
{
    if s.len() == 0 {
    } else {
        lemma_deferred_definitions_known(s.drop_last(), groups, defs);
        let rest = deferred_assignments(s.drop_last(), groups, defs);
        let whole = deferred_assignments(s, groups, defs);
        assert forall|k: int| 0 <= k < whole.len() implies definition_known(
            whole[k].role_assignment,
            defs,
        ) by {
            if k < rest.len() {
                assert(whole[k] == rest[k]);
            }
        }
    }
}

proof fn lemma_member_discoveries_carry_assignment(
    members: Seq<PrincipalId>,
    d: DeferredGroupAssignment,
    users: Map<u128, User>,
)
    ensures
        forall|k: int|
            #![trigger member_discoveries(members, d, users)[k]]
            0 <= k < member_discoveries(members, d, users).len() ==> member_discoveries(
                members,
                d,
                users,
            )[k].role_assignment == d.role_assignment,
    decreases members.len(),
{
    if members.len() == 0 {
    } else {
        lemma_member_discoveries_carry_assignment(members.drop_last(), d, users);
        let rest = member_discoveries(members.drop_last(), d, users);
        let whole = member_discoveries(members, d, users);
        assert forall|k: int| 0 <= k < whole.len() implies whole[k].role_assignment
            == d.role_assignment by {
            if k < rest.len() {
                assert(whole[k] == rest[k]);
            }
        }
    }
}

proof fn lemma_expanded_definitions_known(
    deferred: Seq<DeferredGroupAssignment>,
    members: Map<u128, Vec<PrincipalId>>,
    users: Map<u128, User>,
    defs: Map<u128, RoleDefinition>,
)
    requires
        forall|k: int|
            #![trigger deferred[k]]
            0 <= k < deferred.len() ==> definition_known(deferred[k].role_assignment, defs),
    ensures
        forall|k: int|
            #![trigger expanded_discoveries(deferred, members, users)[k]]
            0 <= k < expanded_discoveries(deferred, members, users).len() ==> definition_known(
                expanded_discoveries(deferred, members, users)[k].role_assignment,
                defs,
            ),
    decreases deferred.len(),
{
    if deferred.len() == 0 {
    } else {
        assert forall|k: int| 0 <= k < deferred.drop_last().len() implies definition_known(
            #[trigger] deferred.drop_last()[k].role_assignment,
            defs,
        ) by {
            assert(deferred.drop_last()[k] == deferred[k]);
        }
        lemma_expanded_definitions_known(deferred.drop_last(), members, users, defs);
        let d = deferred.last();
        let rest = expanded_discoveries(deferred.drop_last(), members, users);
        let whole = expanded_discoveries(deferred, members, users);
        if members.contains_key(d.group.id) {
            lemma_member_discoveries_carry_assignment(members[d.group.id]@, d, users);
            let tail = member_discoveries(members[d.group.id]@, d, users);
            assert(deferred[deferred.len() - 1] == d);
            assert forall|k: int| 0 <= k < whole.len() implies definition_known(
                whole[k].role_assignment,
                defs,
            ) by {
                if k < rest.len() {
                    assert(whole[k] == rest[k]);
                } else {
                    assert(whole[k] == tail[k - rest.len()]);
                }
            }
        }
    }
}

proof fn lemma_missing_diagnostics_exact(s: Seq<RoleAssignment>, defs: Map<u128, RoleDefinition>)
    ensures
        missing_definition_diagnostics(s, defs).len() == missing_definition_count(s, defs),
        forall|k: int|
            #![trigger s[k]]
            0 <= k < s.len() && !definition_known(s[k], defs) ==> missing_definition_diagnostics(
                s,
                defs,
            ).contains(
                MissingDefinition {
                    role_assignment_id: s[k].id,
                    role_definition_id: s[k].role_definition_id,
                },
            ),
        forall|k: int|
            #![trigger missing_definition_diagnostics(s, defs)[k]]
            0 <= k < missing_definition_diagnostics(s, defs).len() ==> exists|j: int|
                #![trigger s[j]]
                0 <= j < s.len() && !definition_known(s[j], defs)
                    && missing_definition_diagnostics(s, defs)[k] == (MissingDefinition {
                    role_assignment_id: s[j].id,
                    role_definition_id: s[j].role_definition_id,
                }),
    decreases s.len(),
{
    if s.len() == 0 {
    } else {
        lemma_missing_diagnostics_exact(s.drop_last(), defs);
        let rest = missing_definition_diagnostics(s.drop_last(), defs);
        let whole = missing_definition_diagnostics(s, defs);
        let a = s.last();
        assert forall|k: int| 0 <= k < s.len() && !definition_known(s[k], defs) implies whole
            .contains(
            MissingDefinition {
                role_assignment_id: s[k].id,
                role_definition_id: s[k].role_definition_id,
            },
        ) by {
            let m = MissingDefinition {
                role_assignment_id: s[k].id,
                role_definition_id: s[k].role_definition_id,
            };
            if k < s.len() - 1 {
                assert(s.drop_last()[k] == s[k]);
                assert(rest.contains(m));
                let i = choose|i: int| 0 <= i < rest.len() && rest[i] == m;
                assert(whole[i] == m);
            } else {
                assert(whole[whole.len() - 1] == m);
            }
        }
        assert forall|k: int| #![trigger whole[k]] 0 <= k < whole.len() implies exists|j: int|
            #![trigger s[j]]
            0 <= j < s.len() && !definition_known(s[j], defs) && whole[k] == (MissingDefinition {
                role_assignment_id: s[j].id,
                role_definition_id: s[j].role_definition_id,
            }) by {
            if k < rest.len() {
                assert(whole[k] == rest[k]);
                let j = choose|j: int|
                    #![trigger s.drop_last()[j]]
                    0 <= j < s.drop_last().len() && !definition_known(s.drop_last()[j], defs)
                        && rest[k] == (MissingDefinition {
                        role_assignment_id: s.drop_last()[j].id,
                        role_definition_id: s.drop_last()[j].role_definition_id,
                    });
                assert(s.drop_last()[j] == s[j]);
            } else {
                assert(!definition_known(a, defs));
                assert(whole[k] == (MissingDefinition {
                    role_assignment_id: s[s.len() - 1].id,
                    role_definition_id: s[s.len() - 1].role_definition_id,
                }));
            }
        }
    }
}

/// Law: a role assignment whose definition identifier is absent from the
/// role-definition index yields no discovery at all — not directly and
/// not through any group — and the first pass emits exactly one
/// diagnostic per such assignment, and none for any other.
pub proof fn lemma_missing_definition_skipped(
    s: Seq<RoleAssignment>,
    members: Map<u128, Vec<PrincipalId>>,
    users: Map<u128, User>,
    defs: Map<u128, RoleDefinition>,
    groups: Map<u128, Group>,
    a: RoleAssignment,
)
    requires
        !definition_known(a, defs),
    ensures
        forall|k: int|
            #![trigger direct_discoveries(s, users, defs)[k]]
            0 <= k < direct_discoveries(s, users, defs).len() ==> direct_discoveries(
                s,
                users,
                defs,
            )[k].role_assignment != a,
        forall|k: int|
            #![trigger expanded_discoveries(deferred_assignments(s, groups, defs), members, users)[k]]
            0 <= k < expanded_discoveries(
                deferred_assignments(s, groups, defs),
                members,
                users,
            ).len() ==> expanded_discoveries(
                deferred_assignments(s, groups, defs),
                members,
                users,
            )[k].role_assignment != a,
        missing_definition_diagnostics(s, defs).len() == missing_definition_count(s, defs),
        forall|k: int|
            #![trigger s[k]]
            0 <= k < s.len() && !definition_known(s[k], defs) ==> missing_definition_diagnostics(
                s,
                defs,
            ).contains(
                MissingDefinition {
                    role_assignment_id: s[k].id,
                    role_definition_id: s[k].role_definition_id,
                },
            ),
{
    lemma_direct_definitions_known(s, users, defs);
    lemma_deferred_definitions_known(s, groups, defs);
    lemma_expanded_definitions_known(deferred_assignments(s, groups, defs), members, users, defs);
    lemma_missing_diagnostics_exact(s, defs);
}

proof fn lemma_direct_no_admin(
    s: Seq<RoleAssignment>,
    users: Map<u128, User>,
    defs: Map<u128, RoleDefinition>,
)
    requires
        forall|k: u128| #[trigger]
            users.contains_key(k) ==> !is_admin_principal_name(users[k].user_principal_name@),
    ensures
        forall|k: int|
            #![trigger direct_discoveries(s, users, defs)[k]]
            0 <= k < direct_discoveries(s, users, defs).len() ==> !is_admin_principal_name(
                direct_discoveries(s, users, defs)[k].user.user_principal_name@,
            ),
    decreases s.len(),
{
    if s.len() == 0 {
    } else {
        lemma_direct_no_admin(s.drop_last(), users, defs);
        let rest = direct_discoveries(s.drop_last(), users, defs);
        let whole = direct_discoveries(s, users, defs);
        assert forall|k: int| 0 <= k < whole.len() implies !is_admin_principal_name(
            whole[k].user.user_principal_name@,
        ) by {
            if k < rest.len() {
                assert(whole[k] == rest[k]);
            }
        }
    }
}

proof fn lemma_member_no_admin(
    members: Seq<PrincipalId>,
    d: DeferredGroupAssignment,
    users: Map<u128, User>,
)
    requires
        forall|k: u128| #[trigger]
            users.contains_key(k) ==> !is_admin_principal_name(users[k].user_principal_name@),
    ensures
        forall|k: int|
            #![trigger member_discoveries(members, d, users)[k]]
            0 <= k < member_discoveries(members, d, users).len() ==> !is_admin_principal_name(
                member_discoveries(members, d, users)[k].user.user_principal_name@,
            ),
    decreases members.len(),
{
    if members.len() == 0 {
    } else {
        lemma_member_no_admin(members.drop_last(), d, users);
        let rest = member_discoveries(members.drop_last(), d, users);
        let whole = member_discoveries(members, d, users);
        assert forall|k: int| 0 <= k < whole.len() implies !is_admin_principal_name(
            whole[k].user.user_principal_name@,
        ) by {
            if k < rest.len() {
                assert(whole[k] == rest[k]);
            }
        }
    }
}

proof fn lemma_expanded_no_admin(
    deferred: Seq<DeferredGroupAssignment>,
    members: Map<u128, Vec<PrincipalId>>,
    users: Map<u128, User>,
)
    requires
        forall|k: u128| #[trigger]
            users.contains_key(k) ==> !is_admin_principal_name(users[k].user_principal_name@),
    ensures
        forall|k: int|
            #![trigger expanded_discoveries(deferred, members, users)[k]]
            0 <= k < expanded_discoveries(deferred, members, users).len()
                ==> !is_admin_principal_name(
                expanded_discoveries(deferred, members, users)[k].user.user_principal_name@,
            ),
    decreases deferred.len(),
{
    if deferred.len() == 0 {
    } else {
        lemma_expanded_no_admin(deferred.drop_last(), members, users);
        let d = deferred.last();
        let rest = expanded_discoveries(deferred.drop_last(), members, users);
        let whole = expanded_discoveries(deferred, members, users);
        if members.contains_key(d.group.id) {
            lemma_member_no_admin(members[d.group.id]@, d, users);
            let tail = member_discoveries(members[d.group.id]@, d, users);
            assert forall|k: int| 0 <= k < whole.len() implies !is_admin_principal_name(
                whole[k].user.user_principal_name@,
            ) by {
                if k < rest.len() {
                    assert(whole[k] == rest[k]);
                } else {
                    assert(whole[k] == tail[k - rest.len()]);
                }
            }
        }
    }
}

proof fn lemma_owners_for_no_admin(owners: Seq<PrincipalId>, g: Group, users: Map<u128, User>)
    requires
        forall|k: u128| #[trigger]
            users.contains_key(k) ==> !is_admin_principal_name(users[k].user_principal_name@),
    ensures
        forall|k: int|
            #![trigger owner_discoveries_for(owners, g, users)[k]]
            0 <= k < owner_discoveries_for(owners, g, users).len() ==> !is_admin_principal_name(
                owner_discoveries_for(owners, g, users)[k].owner.user_principal_name@,
            ),
    decreases owners.len(),
{
    if owners.len() == 0 {
    } else {
        lemma_owners_for_no_admin(owners.drop_last(), g, users);
        let rest = owner_discoveries_for(owners.drop_last(), g, users);
        let whole = owner_discoveries_for(owners, g, users);
        assert forall|k: int| 0 <= k < whole.len() implies !is_admin_principal_name(
            whole[k].owner.user_principal_name@,
        ) by {
            if k < rest.len() {
                assert(whole[k] == rest[k]);
            }
        }
    }
}

proof fn lemma_owners_no_admin(
    groups_col: Seq<Group>,
    owners: Map<u128, Vec<PrincipalId>>,
    users: Map<u128, User>,
)
    requires
        forall|k: u128| #[trigger]
            users.contains_key(k) ==> !is_admin_principal_name(users[k].user_principal_name@),
    ensures
        forall|k: int|
            #![trigger owner_discoveries(groups_col, owners, users)[k]]
            0 <= k < owner_discoveries(groups_col, owners, users).len()
                ==> !is_admin_principal_name(
                owner_discoveries(groups_col, owners, users)[k].owner.user_principal_name@,
            ),
    decreases groups_col.len(),
{
    if groups_col.len() == 0 {
    } else {
        lemma_owners_no_admin(groups_col.drop_last(), owners, users);
        let g = groups_col.last();
        let rest = owner_discoveries(groups_col.drop_last(), owners, users);
        let whole = owner_discoveries(groups_col, owners, users);
        if owners.contains_key(g.id) {
            lemma_owners_for_no_admin(owners[g.id]@, g, users);
            let tail = owner_discoveries_for(owners[g.id]@, g, users);
            assert forall|k: int| 0 <= k < whole.len() implies !is_admin_principal_name(
                whole[k].owner.user_principal_name@,
            ) by {
                if k < rest.len() {
                    assert(whole[k] == rest[k]);
                } else {
                    assert(whole[k] == tail[k - rest.len()]);
                }
            }
        }
    }
}

/// Law: no discovery names an administrative account. With the non-admin
/// user index built from the fetched user collection, every subject of a
/// direct or group-mediated role-assignment discovery and every owner in
/// a group-ownership discovery has a principal name that does not start
/// with `"admin."` (case-insensitive).
pub proof fn lemma_no_admin_discovery_subjects(
    users_col: Seq<User>,
    s: Seq<RoleAssignment>,
    members: Map<u128, Vec<PrincipalId>>,
    owners: Map<u128, Vec<PrincipalId>>,
    groups_col: Seq<Group>,
    defs: Map<u128, RoleDefinition>,
    groups: Map<u128, Group>,
)
    ensures
        forall|k: int|
            #![trigger direct_discoveries(s, user_index(users_col), defs)[k]]
            0 <= k < direct_discoveries(s, user_index(users_col), defs).len()
                ==> !is_admin_principal_name(
                direct_discoveries(s, user_index(users_col), defs)[k].user.user_principal_name@,
            ),
        forall|k: int|
            #![trigger expanded_discoveries(deferred_assignments(s, groups, defs), members, user_index(users_col))[k]]
            0 <= k < expanded_discoveries(
                deferred_assignments(s, groups, defs),
                members,
                user_index(users_col),
            ).len() ==> !is_admin_principal_name(
                expanded_discoveries(
                    deferred_assignments(s, groups, defs),
                    members,
                    user_index(users_col),
                )[k].user.user_principal_name@,
            ),
        forall|k: int|
            #![trigger owner_discoveries(groups_col, owners, user_index(users_col))[k]]
            0 <= k < owner_discoveries(groups_col, owners, user_index(users_col)).len()
                ==> !is_admin_principal_name(
                owner_discoveries(
                    groups_col,
                    owners,
                    user_index(users_col),
                )[k].owner.user_principal_name@,
            ),
{
    lemma_user_index_non_admin(users_col);
    lemma_direct_no_admin(s, user_index(users_col), defs);
    lemma_expanded_no_admin(deferred_assignments(s, groups, defs), members, user_index(users_col));
    lemma_owners_no_admin(groups_col, owners, user_index(users_col));
}


} // verus!
