//! Cross-reference resolvers: classify each role assignment against the
//! identity index, expand group-targeted assignments into per-member
//! discoveries once memberships are known, and turn fetched ownership
//! lists into group-ownership discoveries.

use vstd::prelude::*;
use std::collections::HashMap;
use itertools::Itertools;
use crate::discovery::GroupOwnerDiscovery;
use crate::discovery::RoleAssignmentDiscovery;
use crate::discovery::RoleAssignmentSource;
use crate::discovery::Audit;
use crate::discovery::assemble_audit;
use crate::index::IdentityIndex;
use crate::index::build_identity_index;
use crate::index::definition_index;
use crate::index::group_index;
use crate::index::user_index;
use crate::model::Group;
use crate::model::PrincipalId;
use crate::model::RoleAssignment;
use crate::model::RoleDefinition;
use crate::model::User;

verus! {

broadcast use vstd::std_specs::hash::group_hash_axioms;

/// A role assignment that targets a group, waiting for that group's
/// member list before it can be expanded into discoveries.
#[derive(Debug)]
pub struct DeferredGroupAssignment {
    pub group: Group,
    pub role_assignment: RoleAssignment,
    pub role_definition: RoleDefinition,
}

impl Clone for DeferredGroupAssignment {
    fn clone(&self) -> (r: Self)
        ensures
            r == *self,
    {
        DeferredGroupAssignment {
            group: self.group.clone(),
            role_assignment: self.role_assignment.clone(),
            role_definition: self.role_definition.clone(),
        }
    }
}

/// Diagnostic: a role assignment referenced a definition identifier that
/// is absent from the role-definition index; the assignment was skipped.
#[derive(Debug, Clone, Copy, PartialEq, Eq, Structural)]
pub struct MissingDefinition {
    pub role_assignment_id: u128,
    pub role_definition_id: u128,
}

/// Diagnostic: a deferred group assignment had no fetched member list, so
/// it was skipped during expansion.
#[derive(Debug, Clone, Copy, PartialEq, Eq, Structural)]
pub struct MissingMembers {
    pub group_id: u128,
    pub role_assignment_id: u128,
}

/// Outcome of the first, synchronous pass over the role assignments.
#[derive(Debug)]
pub struct ClassifiedAssignments {
    pub direct: Vec<RoleAssignmentDiscovery>,
    pub deferred: Vec<DeferredGroupAssignment>,
    pub missing_definitions: Vec<MissingDefinition>,
}

/// Whether the assignment's definition identifier is present in the
/// role-definition index.
pub open spec fn definition_known(a: RoleAssignment, defs: Map<u128, RoleDefinition>) -> bool {
    defs.contains_key(a.role_definition_id)
}

/// Whether the assignment targets a non-admin user directly: its principal
/// is of user kind and its identifier is in the non-admin user index.
pub open spec fn direct_target(a: RoleAssignment, users: Map<u128, User>) -> bool {
    a.principal_id is User && users.contains_key(a.principal_id.spec_underlying())
}

/// Whether the assignment targets a known group. The group index is keyed
/// by raw identifier, so the join goes by the principal's underlying
/// identifier whatever its reported kind.
pub open spec fn group_target(a: RoleAssignment, groups: Map<u128, Group>) -> bool {
    groups.contains_key(a.principal_id.spec_underlying())
}

/// The discovery emitted for a direct non-admin target.
pub open spec fn direct_discovery(
    a: RoleAssignment,
    users: Map<u128, User>,
    defs: Map<u128, RoleDefinition>,
) -> RoleAssignmentDiscovery {
    RoleAssignmentDiscovery {
        user: users[a.principal_id.spec_underlying()],
        source: RoleAssignmentSource::Direct,
        role_assignment: a,
        role_definition: defs[a.role_definition_id],
    }
}

/// The direct discoveries of the first pass, one per assignment whose
/// definition is known and whose principal is a non-admin user, in
/// assignment order.
pub open spec fn direct_discoveries(
    s: Seq<RoleAssignment>,
    users: Map<u128, User>,
    defs: Map<u128, RoleDefinition>,
) -> Seq<RoleAssignmentDiscovery>
    decreases s.len(),
{
    if s.len() == 0 {
        Seq::empty()
    } else {
        let rest = direct_discoveries(s.drop_last(), users, defs);
        let a = s.last();
        if definition_known(a, defs) && direct_target(a, users) {
            rest.push(direct_discovery(a, users, defs))
        } else {
            rest
        }
    }
}

/// The deferred triples of the first pass, one per assignment whose
/// definition is known and whose principal resolves to a known group, in
/// assignment order.
pub open spec fn deferred_assignments(
    s: Seq<RoleAssignment>,
    groups: Map<u128, Group>,
    defs: Map<u128, RoleDefinition>,
) -> Seq<DeferredGroupAssignment>
    decreases s.len(),
{
    if s.len() == 0 {
        Seq::empty()
    } else {
        let rest = deferred_assignments(s.drop_last(), groups, defs);
        let a = s.last();
        if definition_known(a, defs) && group_target(a, groups) {
            rest.push(
                DeferredGroupAssignment {
                    group: groups[a.principal_id.spec_underlying()],
                    role_assignment: a,
                    role_definition: defs[a.role_definition_id],
                },
            )
        } else {
            rest
        }
    }
}

/// The diagnostics of the first pass: one per assignment whose definition
/// identifier is absent from the index, in assignment order.
pub open spec fn missing_definition_diagnostics(
    s: Seq<RoleAssignment>,
    defs: Map<u128, RoleDefinition>,
) -> Seq<MissingDefinition>
    decreases s.len(),
{
    if s.len() == 0 {
        Seq::empty()
    } else {
        let rest = missing_definition_diagnostics(s.drop_last(), defs);
        let a = s.last();
        if !definition_known(a, defs) {
            rest.push(
                MissingDefinition {
                    role_assignment_id: a.id,
                    role_definition_id: a.role_definition_id,
                },
            )
        } else {
            rest
        }
    }
}

/// First pass: classify every role assignment against the identity index.
/// An assignment with an unknown definition contributes one diagnostic and
/// nothing else; one targeting a non-admin user contributes a direct
/// discovery; one targeting a known group is deferred for expansion. An
/// assignment matching neither contributes nothing.
pub fn classify_role_assignments(
    role_assignments: &Vec<RoleAssignment>,
    index: &IdentityIndex,
) -> (r: ClassifiedAssignments)
    ensures
        r.direct@ == direct_discoveries(
            role_assignments@,
            index.non_admin_users@,
            index.role_definitions@,
        ),
        r.deferred@ == deferred_assignments(
            role_assignments@,
            index.groups@,
            index.role_definitions@,
        ),
        r.missing_definitions@ == missing_definition_diagnostics(
            role_assignments@,
            index.role_definitions@,
        ),
{
    let mut direct: Vec<RoleAssignmentDiscovery> = Vec::new();
    let mut deferred: Vec<DeferredGroupAssignment> = Vec::new();
    let mut missing: Vec<MissingDefinition> = Vec::new();
    let mut i: usize = 0;
    while i < role_assignments.len()
        invariant
            i <= role_assignments.len(),
            direct@ == direct_discoveries(
                role_assignments@.take(i as int),
                index.non_admin_users@,
                index.role_definitions@,
            ),
            deferred@ == deferred_assignments(
                role_assignments@.take(i as int),
                index.groups@,
                index.role_definitions@,
            ),
            missing@ == missing_definition_diagnostics(
                role_assignments@.take(i as int),
                index.role_definitions@,
            ),
        decreases role_assignments.len() - i,
    {
        let a = &role_assignments[i];
        proof {
            assert(role_assignments@.take(i + 1 as int).drop_last() =~= role_assignments@.take(
                i as int,
            ));
            assert(role_assignments@.take(i + 1 as int).last() == role_assignments@[i as int]);
        }
        match index.role_definitions.get(&a.role_definition_id) {
            None => {
                missing.push(
                    MissingDefinition {
                        role_assignment_id: a.id,
                        role_definition_id: a.role_definition_id,
                    },
                );
            },
            Some(def) => {
                if let PrincipalId::User(uid) = a.principal_id {
                    if let Some(user) = index.non_admin_users.get(&uid) {
                        direct.push(
                            RoleAssignmentDiscovery {
                                user: user.clone(),
                                source: RoleAssignmentSource::Direct,
                                role_assignment: a.clone(),
                                role_definition: def.clone(),
                            },
                        );
                    }
                }
                if let Some(group) = index.groups.get(&a.principal_id.underlying()) {
                    deferred.push(
                        DeferredGroupAssignment {
                            group: group.clone(),
                            role_assignment: a.clone(),
                            role_definition: def.clone(),
                        },
                    );
                }
            },
        }
        i = i + 1;
    }
    proof {
        assert(role_assignments@.take(role_assignments@.len() as int) =~= role_assignments@);
    }
    ClassifiedAssignments { direct, deferred, missing_definitions: missing }
}

/// Outcome of the second, synchronous pass: the group-mediated
/// discoveries, and one diagnostic per deferred assignment whose group had
/// no fetched member list.
#[derive(Debug)]
pub struct GroupExpansion {
    pub discoveries: Vec<RoleAssignmentDiscovery>,
    pub missing_members: Vec<MissingMembers>,
}

/// The discoveries one deferred assignment yields from one member list:
/// one per member who is a non-admin user, in member order, each carrying
/// the mediating group.
pub open spec fn member_discoveries(
    members: Seq<PrincipalId>,
    d: DeferredGroupAssignment,
    users: Map<u128, User>,
) -> Seq<RoleAssignmentDiscovery>
    decreases members.len(),
{
    if members.len() == 0 {
        Seq::empty()
    } else {
        let rest = member_discoveries(members.drop_last(), d, users);
        let p = members.last();
        if p is User && users.contains_key(p.spec_underlying()) {
            rest.push(
                RoleAssignmentDiscovery {
                    user: users[p.spec_underlying()],
                    source: RoleAssignmentSource::Group(d.group),
                    role_assignment: d.role_assignment,
                    role_definition: d.role_definition,
                },
            )
        } else {
            rest
        }
    }
}

/// The group-mediated discoveries of the second pass: for each deferred
/// assignment in order, the discoveries its group's member list yields; a
/// deferred assignment whose group has no fetched member list yields none.
pub open spec fn expanded_discoveries(
    deferred: Seq<DeferredGroupAssignment>,
    members: Map<u128, Vec<PrincipalId>>,
    users: Map<u128, User>,
) -> Seq<RoleAssignmentDiscovery>
    decreases deferred.len(),
{
    if deferred.len() == 0 {
        Seq::empty()
    } else {
        let rest = expanded_discoveries(deferred.drop_last(), members, users);
        let d = deferred.last();
        if members.contains_key(d.group.id) {
            rest + member_discoveries(members[d.group.id]@, d, users)
        } else {
            rest
        }
    }
}

/// The diagnostics of the second pass: one per deferred assignment whose
/// group has no fetched member list, in deferred order.
pub open spec fn missing_member_diagnostics(
    deferred: Seq<DeferredGroupAssignment>,
    members: Map<u128, Vec<PrincipalId>>,
) -> Seq<MissingMembers>
    decreases deferred.len(),
{
    if deferred.len() == 0 {
        Seq::empty()
    } else {
        let rest = missing_member_diagnostics(deferred.drop_last(), members);
        let d = deferred.last();
        if !members.contains_key(d.group.id) {
            rest.push(
                MissingMembers { group_id: d.group.id, role_assignment_id: d.role_assignment.id },
            )
        } else {
            rest
        }
    }
}

/// Second pass: expand every deferred group assignment against the fetched
/// member lists. A member that is a non-admin user yields one discovery
/// per deferred assignment reaching it; a group without a fetched member
/// list is skipped with a diagnostic.
pub fn expand_group_assignments(
    deferred: &Vec<DeferredGroupAssignment>,
    group_members: &HashMap<u128, Vec<PrincipalId>>,
    non_admin_users: &HashMap<u128, User>,
) -> (r: GroupExpansion)
    ensures
        r.discoveries@ == expanded_discoveries(deferred@, group_members@, non_admin_users@),
        r.missing_members@ == missing_member_diagnostics(deferred@, group_members@),
{
    let mut discoveries: Vec<RoleAssignmentDiscovery> = Vec::new();
    let mut missing: Vec<MissingMembers> = Vec::new();
    let mut i: usize = 0;
    while i < deferred.len()
        invariant
            i <= deferred.len(),
            discoveries@ == expanded_discoveries(
                deferred@.take(i as int),
                group_members@,
                non_admin_users@,
            ),
            missing@ == missing_member_diagnostics(deferred@.take(i as int), group_members@),
        decreases deferred.len() - i,
    {
        let d = &deferred[i];
        proof {
            assert(deferred@.take(i + 1 as int).drop_last() =~= deferred@.take(i as int));
            assert(deferred@.take(i + 1 as int).last() == deferred@[i as int]);
        }
        match group_members.get(&d.group.id) {
            None => {
                missing.push(
                    MissingMembers {
                        group_id: d.group.id,
                        role_assignment_id: d.role_assignment.id,
                    },
                );
            },
            Some(members) => {
                let mut j: usize = 0;
                while j < members.len()
                    invariant
                        j <= members.len(),
                        group_members@.contains_key(d.group.id),
                        members == group_members@[d.group.id],
                        d == deferred@[i as int],
                        i < deferred.len(),
                        discoveries@ == expanded_discoveries(
                            deferred@.take(i as int),
                            group_members@,
                            non_admin_users@,
                        ) + member_discoveries(
                            members@.take(j as int),
                            deferred@[i as int],
                            non_admin_users@,
                        ),
                    decreases members.len() - j,
                {
                    let p = members[j];
                    proof {
                        assert(members@.take(j + 1 as int).drop_last() =~= members@.take(j as int));
                        assert(members@.take(j + 1 as int).last() == members@[j as int]);
                    }
                    if let PrincipalId::User(uid) = p {
                        if let Some(user) = non_admin_users.get(&uid) {
                            discoveries.push(
                                RoleAssignmentDiscovery {
                                    user: user.clone(),
                                    source: RoleAssignmentSource::Group(d.group.clone()),
                                    role_assignment: d.role_assignment.clone(),
                                    role_definition: d.role_definition.clone(),
                                },
                            );
                        }
                    }
                    j = j + 1;
                }
                proof {
                    assert(members@.take(members@.len() as int) =~= members@);
                }
            },
        }
        i = i + 1;
    }
    proof {
        assert(deferred@.take(deferred@.len() as int) =~= deferred@);
    }
    GroupExpansion { discoveries, missing_members: missing }
}

/// The group identifiers of the deferred assignments, one per assignment,
/// in deferred order.
pub open spec fn deferred_group_id_seq(deferred: Seq<DeferredGroupAssignment>) -> Seq<u128> {
    deferred.map_values(|d: DeferredGroupAssignment| d.group.id)
}

/// `s` with every repeated element removed: each element keeps its first
/// occurrence, in order.
pub open spec fn dedup_first(s: Seq<u128>) -> Seq<u128>
    decreases s.len(),
{
    if s.len() == 0 {
        Seq::empty()
    } else {
        let rest = dedup_first(s.drop_last());
        if rest.contains(s.last()) {
            rest
        } else {
            rest.push(s.last())
        }
    }
}

/// Relies on itertools' `Itertools::unique`: the returned iterator yields
/// each element of the input once, at its first occurrence, in input
/// order.
#[verifier::external_body]
fn unique_u128s(ids: Vec<u128>) -> (r: Vec<u128>)
    ensures
        r@ == dedup_first(ids@),
{
    ids.into_iter().unique().collect()
}

/// The distinct group identifiers referenced by the deferred list, first
/// occurrences in order: a group referenced by several assignments is
/// fetched once.
pub fn deferred_group_ids(deferred: &Vec<DeferredGroupAssignment>) -> (r: Vec<u128>)
    ensures
        r@ == dedup_first(deferred_group_id_seq(deferred@)),
{
    let mut ids: Vec<u128> = Vec::new();
    let mut i: usize = 0;
    while i < deferred.len()
        invariant
            i <= deferred.len(),
            ids@ == deferred_group_id_seq(deferred@.take(i as int)),
        decreases deferred.len() - i,
    {
        proof {
            assert(deferred_group_id_seq(deferred@.take(i + 1 as int)) =~= deferred_group_id_seq(
                deferred@.take(i as int),
            ).push(deferred@[i as int].group.id));
        }
        ids.push(deferred[i].group.id);
        i = i + 1;
    }
    proof {
        assert(deferred@.take(deferred@.len() as int) =~= deferred@);
    }
    unique_u128s(ids)
}

/// Outcome of resolving all role assignments: the discoveries and the two
/// kinds of non-fatal diagnostics.
#[derive(Debug)]
pub struct RoleAssignmentResolution {
    pub discoveries: Vec<RoleAssignmentDiscovery>,
    pub missing_definitions: Vec<MissingDefinition>,
    pub missing_members: Vec<MissingMembers>,
}

/// Resolve every role assignment into its discoveries, given the member
/// lists fetched for the deferred groups: the direct discoveries of the
/// first pass followed by the group-mediated discoveries of the second,
/// with one diagnostic per skipped assignment.
pub fn get_non_admin_users_with_role_assignments(
    role_assignments: &Vec<RoleAssignment>,
    index: &IdentityIndex,
    group_members: &HashMap<u128, Vec<PrincipalId>>,
) -> (r: RoleAssignmentResolution)
    ensures
        r.discoveries@ == direct_discoveries(
            role_assignments@,
            index.non_admin_users@,
            index.role_definitions@,
        ) + expanded_discoveries(
            deferred_assignments(role_assignments@, index.groups@, index.role_definitions@),
            group_members@,
            index.non_admin_users@,
        ),
        r.missing_definitions@ == missing_definition_diagnostics(
            role_assignments@,
            index.role_definitions@,
        ),
        r.missing_members@ == missing_member_diagnostics(
            deferred_assignments(role_assignments@, index.groups@, index.role_definitions@),
            group_members@,
        ),
{
    let classified = classify_role_assignments(role_assignments, index);
    let mut expansion = expand_group_assignments(
        &classified.deferred,
        group_members,
        &index.non_admin_users,
    );
    let mut discoveries = classified.direct;
    discoveries.append(&mut expansion.discoveries);
    RoleAssignmentResolution {
        discoveries,
        missing_definitions: classified.missing_definitions,
        missing_members: expansion.missing_members,
    }
}

/// The ownership discoveries one group yields from its fetched owner
/// list: one per owner who is a non-admin user, in owner order.
pub open spec fn owner_discoveries_for(
    owners: Seq<PrincipalId>,
    g: Group,
    users: Map<u128, User>,
) -> Seq<GroupOwnerDiscovery>
    decreases owners.len(),
{
    if owners.len() == 0 {
        Seq::empty()
    } else {
        let rest = owner_discoveries_for(owners.drop_last(), g, users);
        let p = owners.last();
        if p is User && users.contains_key(p.spec_underlying()) {
            rest.push(GroupOwnerDiscovery { group: g, owner: users[p.spec_underlying()] })
        } else {
            rest
        }
    }
}

/// The ownership discoveries of all groups: for each group in order, the
/// discoveries its fetched owner list yields; a group without a fetched
/// owner list yields none and is skipped silently.
pub open spec fn owner_discoveries(
    groups: Seq<Group>,
    owners: Map<u128, Vec<PrincipalId>>,
    users: Map<u128, User>,
) -> Seq<GroupOwnerDiscovery>
    decreases groups.len(),
{
    if groups.len() == 0 {
        Seq::empty()
    } else {
        let rest = owner_discoveries(groups.drop_last(), owners, users);
        let g = groups.last();
        if owners.contains_key(g.id) {
            rest + owner_discoveries_for(owners[g.id]@, g, users)
        } else {
            rest
        }
    }
}

/// Ownership resolver: for every group, in order, emit one discovery per
/// fetched owner who is a non-admin user. A group whose ownership fetch
/// did not complete is skipped for ownership purposes only.
pub fn get_non_admin_group_owners(
    groups: &Vec<Group>,
    group_owners: &HashMap<u128, Vec<PrincipalId>>,
    non_admin_users: &HashMap<u128, User>,
) -> (r: Vec<GroupOwnerDiscovery>)
    ensures
        r@ == owner_discoveries(groups@, group_owners@, non_admin_users@),
{
    let mut discoveries: Vec<GroupOwnerDiscovery> = Vec::new();
    let mut i: usize = 0;
    while i < groups.len()
        invariant
            i <= groups.len(),
            discoveries@ == owner_discoveries(
                groups@.take(i as int),
                group_owners@,
                non_admin_users@,
            ),
        decreases groups.len() - i,
    {
        let g = &groups[i];
        proof {
            assert(groups@.take(i + 1 as int).drop_last() =~= groups@.take(i as int));
            assert(groups@.take(i + 1 as int).last() == groups@[i as int]);
        }
        if let Some(owners) = group_owners.get(&g.id) {
            let mut j: usize = 0;
            while j < owners.len()
                invariant
                    j <= owners.len(),
                    group_owners@.contains_key(g.id),
                    owners == group_owners@[g.id],
                    g == groups@[i as int],
                    i < groups.len(),
                    discoveries@ == owner_discoveries(
                        groups@.take(i as int),
                        group_owners@,
                        non_admin_users@,
                    ) + owner_discoveries_for(
                        owners@.take(j as int),
                        groups@[i as int],
                        non_admin_users@,
                    ),
                decreases owners.len() - j,
            {
                let p = owners[j];
                proof {
                    assert(owners@.take(j + 1 as int).drop_last() =~= owners@.take(j as int));
                    assert(owners@.take(j + 1 as int).last() == owners@[j as int]);
                }
                if let PrincipalId::User(uid) = p {
                    if let Some(user) = non_admin_users.get(&uid) {
                        discoveries.push(
                            GroupOwnerDiscovery { group: g.clone(), owner: user.clone() },
                        );
                    }
                }
                j = j + 1;
            }
            proof {
                assert(owners@.take(owners@.len() as int) =~= owners@);
            }
        }
        i = i + 1;
    }
    proof {
        assert(groups@.take(groups@.len() as int) =~= groups@);
    }
    discoveries
}

/// Everything a finished run produces: the terminal audit structure, and
/// the non-fatal diagnostics absorbed along the way.
#[derive(Debug)]
pub struct AuditOutcome {
    pub audit: Audit,
    pub missing_definitions: Vec<MissingDefinition>,
    pub missing_members: Vec<MissingMembers>,
}

/// The whole synchronous part of a run, on already-fetched data: build the
/// identity index, resolve the role assignments against it and the fetched
/// member lists, resolve group ownerships against the fetched owner lists,
/// and wrap both discovery sequences into the audit, role-assignment
/// discoveries first.
pub fn run_audit(
    users: &Vec<User>,
    role_definitions: &Vec<RoleDefinition>,
    groups_col: &Vec<Group>,
    role_assignments: &Vec<RoleAssignment>,
    group_members: &HashMap<u128, Vec<PrincipalId>>,
    group_owners: &HashMap<u128, Vec<PrincipalId>>,
) -> (r: AuditOutcome)
    ensures
        r.audit.role_assignments@ == direct_discoveries(
            role_assignments@,
            user_index(users@),
            definition_index(role_definitions@),
        ) + expanded_discoveries(
            deferred_assignments(
                role_assignments@,
                group_index(groups_col@),
                definition_index(role_definitions@),
            ),
            group_members@,
            user_index(users@),
        ),
        r.audit.group_owners@ == owner_discoveries(groups_col@, group_owners@, user_index(users@)),
        r.missing_definitions@ == missing_definition_diagnostics(
            role_assignments@,
            definition_index(role_definitions@),
        ),
        r.missing_members@ == missing_member_diagnostics(
            deferred_assignments(
                role_assignments@,
                group_index(groups_col@),
                definition_index(role_definitions@),
            ),
            group_members@,
        ),
{
    let index = build_identity_index(users, role_definitions, groups_col);
    let resolution = get_non_admin_users_with_role_assignments(
        role_assignments,
        &index,
        group_members,
    );
    let owners = get_non_admin_group_owners(groups_col, group_owners, &index.non_admin_users);
    AuditOutcome {
        audit: assemble_audit(resolution.discoveries, owners),
        missing_definitions: resolution.missing_definitions,
        missing_members: resolution.missing_members,
    }
}

} // verus!
