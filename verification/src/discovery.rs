//! Output records of the audit: discoveries of privileged access reaching
//! non-admin accounts, and the terminal aggregate that wraps them.

use vstd::prelude::*;
use crate::model::Group;
use crate::model::RoleAssignment;
use crate::model::RoleDefinition;
use crate::model::User;

verus! {

/// How a role assignment reaches its non-admin subject: granted straight
/// to the user, or granted to a group the user belongs to.
#[derive(Debug)]
pub enum RoleAssignmentSource {
    Direct,
    Group(Group),
}

/// A privilege grant reaching a non-admin user, either directly or through
/// exactly one group hop.
#[derive(Debug)]
pub struct RoleAssignmentDiscovery {
    pub user: User,
    pub source: RoleAssignmentSource,
    pub role_assignment: RoleAssignment,
    pub role_definition: RoleDefinition,
}

/// A group owned by a non-admin user.
#[derive(Debug)]
pub struct GroupOwnerDiscovery {
    pub group: Group,
    pub owner: User,
}

/// The terminal aggregate of the audit: the role-assignment discoveries
/// and the group-ownership discoveries, each in the order they were
/// produced. Built once and never mutated again.
#[derive(Debug)]
pub struct Audit {
    pub role_assignments: Vec<RoleAssignmentDiscovery>,
    pub group_owners: Vec<GroupOwnerDiscovery>,
}

/// Wrap the two discovery sequences into the terminal audit structure,
/// preserving the order in which the discoveries were produced.
pub fn assemble_audit(
    role_assignments: Vec<RoleAssignmentDiscovery>,
    group_owners: Vec<GroupOwnerDiscovery>,
) -> (audit: Audit)
    ensures
        audit.role_assignments == role_assignments,
        audit.group_owners == group_owners,
{
    Audit { role_assignments, group_owners }
}

} // verus!
