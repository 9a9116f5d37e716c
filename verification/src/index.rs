//! Identity index: the read-only lookup structures built once from the
//! four fetched collections — non-admin users keyed by user identifier,
//! role definitions keyed by definition identifier, and groups keyed by
//! group identifier.

use vstd::prelude::*;
use std::collections::HashMap;
use crate::model::Group;
use crate::model::RoleDefinition;
use crate::model::User;
use crate::model::is_admin_principal_name;
use crate::model::principal_name_is_admin;

verus! {

broadcast use vstd::std_specs::hash::group_hash_axioms;

/// In-memory lookup structures built once from the fetched collections and
/// treated as read-only afterwards. Administrative accounts are excluded
/// from `non_admin_users` at construction and therefore from every
/// downstream check.
pub struct IdentityIndex {
    pub non_admin_users: HashMap<u128, User>,
    pub role_definitions: HashMap<u128, RoleDefinition>,
    pub groups: HashMap<u128, Group>,
}

/// The mapping from user identifier to user that retains exactly the
/// non-admin users; a repeated identifier keeps the later record.
pub open spec fn user_index(users: Seq<User>) -> Map<u128, User>
    decreases users.len(),
{
    if users.len() == 0 {
        Map::empty()
    } else {
        let m = user_index(users.drop_last());
        let u = users.last();
        if !is_admin_principal_name(u.user_principal_name@) {
            m.insert(u.id, u)
        } else {
            m
        }
    }
}

/// The mapping from definition identifier to role definition; a repeated
/// identifier keeps the later record.
pub open spec fn definition_index(defs: Seq<RoleDefinition>) -> Map<u128, RoleDefinition>
    decreases defs.len(),
{
    if defs.len() == 0 {
        Map::empty()
    } else {
        definition_index(defs.drop_last()).insert(defs.last().id, defs.last())
    }
}

/// The mapping from group identifier to group; a repeated identifier keeps
/// the later record.
pub open spec fn group_index(groups: Seq<Group>) -> Map<u128, Group>
    decreases groups.len(),
{
    if groups.len() == 0 {
        Map::empty()
    } else {
        group_index(groups.drop_last()).insert(groups.last().id, groups.last())
    }
}

/// Whether `idx` holds exactly the index contents determined by the three
/// input collections.
pub open spec fn is_index_of(
    idx: IdentityIndex,
    users: Seq<User>,
    defs: Seq<RoleDefinition>,
    groups: Seq<Group>,
) -> bool {
    &&& idx.non_admin_users@ == user_index(users)
    &&& idx.role_definitions@ == definition_index(defs)
    &&& idx.groups@ == group_index(groups)
}

/// Build the identity index from the fetched collections: retain the users
/// whose principal name does not start with `"admin."` (case-insensitive),
/// keyed by user identifier; key role definitions and groups by their own
/// identifiers.
pub fn build_identity_index(
    users: &Vec<User>,
    role_definitions: &Vec<RoleDefinition>,
    groups: &Vec<Group>,
) -> (idx: IdentityIndex)
    ensures
        is_index_of(idx, users@, role_definitions@, groups@),
{
    let mut non_admin_users: HashMap<u128, User> = HashMap::new();
    let mut i: usize = 0;
    while i < users.len()
        invariant
            i <= users.len(),
            non_admin_users@ == user_index(users@.take(i as int)),
        decreases users.len() - i,
    {
        let u = &users[i];
        proof {
            assert(users@.take(i + 1 as int).drop_last() =~= users@.take(i as int));
        }
        if !principal_name_is_admin(u.user_principal_name.as_str()) {
            non_admin_users.insert(u.id, u.clone());
        }
        i = i + 1;
    }
    proof {
        assert(users@.take(users@.len() as int) =~= users@);
    }

    let mut defs: HashMap<u128, RoleDefinition> = HashMap::new();
    let mut i: usize = 0;
    while i < role_definitions.len()
        invariant
            i <= role_definitions.len(),
            defs@ == definition_index(role_definitions@.take(i as int)),
        decreases role_definitions.len() - i,
    {
        let d = &role_definitions[i];
        proof {
            assert(role_definitions@.take(i + 1 as int).drop_last() =~= role_definitions@.take(
                i as int,
            ));
        }
        defs.insert(d.id, d.clone());
        i = i + 1;
    }
    proof {
        assert(role_definitions@.take(role_definitions@.len() as int) =~= role_definitions@);
    }

    let mut group_map: HashMap<u128, Group> = HashMap::new();
    let mut i: usize = 0;
    while i < groups.len()
        invariant
            i <= groups.len(),
            group_map@ == group_index(groups@.take(i as int)),
        decreases groups.len() - i,
    {
        let g = &groups[i];
        proof {
            assert(groups@.take(i + 1 as int).drop_last() =~= groups@.take(i as int));
        }
        group_map.insert(g.id, g.clone());
        i = i + 1;
    }
    proof {
        assert(groups@.take(groups@.len() as int) =~= groups@);
    }

    IdentityIndex { non_admin_users, role_definitions: defs, groups: group_map }
}

/// Law: identity-index construction is deterministic — two indices built
/// from the same input collections hold identical contents, however the
/// two runs interleaved their work.
pub proof fn lemma_identity_index_idempotent(
    first: IdentityIndex,
    second: IdentityIndex,
    users: Seq<User>,
    defs: Seq<RoleDefinition>,
    groups: Seq<Group>,
)
    requires
        is_index_of(first, users, defs, groups),
        is_index_of(second, users, defs, groups),
    ensures
        first.non_admin_users@ == second.non_admin_users@,
        first.role_definitions@ == second.role_definitions@,
        first.groups@ == second.groups@,
{
}

/// Law: every user retained in the non-admin user index has a principal
/// name that does not start with `"admin."` (case-insensitive).
pub proof fn lemma_user_index_non_admin(users: Seq<User>)
    ensures
        forall|k: u128| #[trigger]
            user_index(users).contains_key(k) ==> !is_admin_principal_name(
                user_index(users)[k].user_principal_name@,
            ),
    decreases users.len(),
{
    if users.len() == 0 {
    } else {
        lemma_user_index_non_admin(users.drop_last());
        let m = user_index(users.drop_last());
        let u = users.last();
        assert forall|k: u128| #[trigger]
            user_index(users).contains_key(k) implies !is_admin_principal_name(
            user_index(users)[k].user_principal_name@,
        ) by {
            if !is_admin_principal_name(u.user_principal_name@) && k == u.id {
                assert(user_index(users)[k] == u);
            } else {
                assert(user_index(users)[k] == m[k]);
            }
        }
    }
}

} // verus!
