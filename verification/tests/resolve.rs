//! End-to-end tests of the cross-reference resolvers, mirroring the
//! audit scenarios: direct grants, group-mediated grants, group
//! ownership, and the non-fatal skip paths.

use std::collections::HashMap;
use admin_account_audit::discovery::RoleAssignmentSource;
use admin_account_audit::index::build_identity_index;
use admin_account_audit::model::Group;
use admin_account_audit::model::PrincipalId;
use admin_account_audit::model::RoleAssignment;
use admin_account_audit::model::RoleDefinition;
use admin_account_audit::model::User;
use admin_account_audit::resolve::classify_role_assignments;
use admin_account_audit::resolve::deferred_group_ids;
use admin_account_audit::resolve::get_non_admin_group_owners;
use admin_account_audit::resolve::get_non_admin_users_with_role_assignments;
use admin_account_audit::resolve::run_audit;

fn user(id: u128, upn: &str, name: &str) -> User {
    User {
        id,
        user_principal_name: upn.to_string(),
        display_name: name.to_string(),
    }
}

fn assignment(id: u128, principal_id: PrincipalId, role_definition_id: u128) -> RoleAssignment {
    RoleAssignment {
        id,
        principal_id,
        role_definition_id,
        scope: "/subscriptions/prod".to_string(),
    }
}

fn no_lists() -> HashMap<u128, Vec<PrincipalId>> {
    HashMap::new()
}

#[test]
fn direct_assignment_yields_one_direct_discovery() {
    // One admin user, one non-admin user "alice" with a direct grant of
    // "Reader": exactly one discovery, direct, alice, Reader.
    let users = vec![
        user(1, "admin.bob@example.com", "Bob (admin)"),
        user(2, "alice@example.com", "Alice"),
    ];
    let defs = vec![RoleDefinition { id: 10, display_name: "Reader".to_string() }];
    let groups: Vec<Group> = Vec::new();
    let assignments = vec![assignment(100, PrincipalId::User(2), 10)];

    let outcome = run_audit(&users, &defs, &groups, &assignments, &no_lists(), &no_lists());

    assert_eq!(outcome.audit.role_assignments.len(), 1);
    let d = &outcome.audit.role_assignments[0];
    assert_eq!(d.user.display_name, "Alice");
    assert!(matches!(d.source, RoleAssignmentSource::Direct));
    assert_eq!(d.role_assignment.id, 100);
    assert_eq!(d.role_definition.display_name, "Reader");
    assert!(outcome.audit.group_owners.is_empty());
    assert!(outcome.missing_definitions.is_empty());
    assert!(outcome.missing_members.is_empty());
}

#[test]
fn group_assignment_expands_to_non_admin_members_only() {
    // Group "Engineers" (members: alice [non-admin], admin-bob [admin])
    // holds a "Contributor" grant: exactly one discovery, for alice,
    // mediated by Engineers; admin-bob produces none.
    let users = vec![
        user(1, "admin.bob@example.com", "Bob (admin)"),
        user(2, "alice@example.com", "Alice"),
    ];
    let defs = vec![RoleDefinition { id: 11, display_name: "Contributor".to_string() }];
    let groups = vec![Group { id: 20, display_name: "Engineers".to_string() }];
    let assignments = vec![assignment(101, PrincipalId::Group(20), 11)];
    let mut members = HashMap::new();
    members.insert(20, vec![PrincipalId::User(2), PrincipalId::User(1)]);

    let outcome = run_audit(&users, &defs, &groups, &assignments, &members, &no_lists());

    assert_eq!(outcome.audit.role_assignments.len(), 1);
    let d = &outcome.audit.role_assignments[0];
    assert_eq!(d.user.display_name, "Alice");
    match &d.source {
        RoleAssignmentSource::Group(g) => assert_eq!(g.display_name, "Engineers"),
        RoleAssignmentSource::Direct => panic!("expected a group-mediated discovery"),
    }
    assert_eq!(d.role_definition.display_name, "Contributor");
    assert!(outcome.missing_members.is_empty());
}

#[test]
fn group_ownership_yields_one_discovery_per_non_admin_owner() {
    // Group "Engineers" owned by non-admin "carol": exactly one
    // group-ownership discovery.
    let users = vec![
        user(1, "admin.bob@example.com", "Bob (admin)"),
        user(3, "carol@example.com", "Carol"),
    ];
    let defs: Vec<RoleDefinition> = Vec::new();
    let groups = vec![Group { id: 20, display_name: "Engineers".to_string() }];
    let assignments: Vec<RoleAssignment> = Vec::new();
    let mut owners = HashMap::new();
    owners.insert(20, vec![PrincipalId::User(3), PrincipalId::User(1)]);

    let outcome = run_audit(&users, &defs, &groups, &assignments, &no_lists(), &owners);

    assert!(outcome.audit.role_assignments.is_empty());
    assert_eq!(outcome.audit.group_owners.len(), 1);
    let d = &outcome.audit.group_owners[0];
    assert_eq!(d.group.display_name, "Engineers");
    assert_eq!(d.owner.display_name, "Carol");
}

#[test]
fn admin_accounts_never_appear_as_subjects_or_owners() {
    // Direct grant to an admin, admin membership, admin ownership: no
    // discovery names the admin account.
    let users = vec![user(1, "admin.bob@example.com", "Bob (admin)")];
    let defs = vec![RoleDefinition { id: 10, display_name: "Reader".to_string() }];
    let groups = vec![Group { id: 20, display_name: "Engineers".to_string() }];
    let assignments = vec![
        assignment(100, PrincipalId::User(1), 10),
        assignment(101, PrincipalId::Group(20), 10),
    ];
    let mut members = HashMap::new();
    members.insert(20, vec![PrincipalId::User(1)]);
    let mut owners = HashMap::new();
    owners.insert(20, vec![PrincipalId::User(1)]);

    let outcome = run_audit(&users, &defs, &groups, &assignments, &members, &owners);

    assert!(outcome.audit.role_assignments.is_empty());
    assert!(outcome.audit.group_owners.is_empty());
}

#[test]
fn missing_definition_skips_assignment_with_one_diagnostic() {
    let users = vec![user(2, "alice@example.com", "Alice")];
    let defs = vec![RoleDefinition { id: 10, display_name: "Reader".to_string() }];
    let groups: Vec<Group> = Vec::new();
    let assignments = vec![
        assignment(100, PrincipalId::User(2), 99),
        assignment(101, PrincipalId::User(2), 10),
    ];

    let outcome = run_audit(&users, &defs, &groups, &assignments, &no_lists(), &no_lists());

    // The assignment with the unknown definition contributes no discovery
    // and exactly one diagnostic; the other proceeds normally.
    assert_eq!(outcome.audit.role_assignments.len(), 1);
    assert_eq!(outcome.audit.role_assignments[0].role_assignment.id, 101);
    assert_eq!(outcome.missing_definitions.len(), 1);
    assert_eq!(outcome.missing_definitions[0].role_assignment_id, 100);
    assert_eq!(outcome.missing_definitions[0].role_definition_id, 99);
}

#[test]
fn discovery_count_equals_non_admin_member_count_per_assignment() {
    // A group with two non-admin members and one admin member, reached by
    // two assignments: one discovery per (non-admin member, assignment)
    // pair, with no deduplication.
    let users = vec![
        user(1, "admin.bob@example.com", "Bob (admin)"),
        user(2, "alice@example.com", "Alice"),
        user(3, "carol@example.com", "Carol"),
    ];
    let defs = vec![
        RoleDefinition { id: 10, display_name: "Reader".to_string() },
        RoleDefinition { id: 11, display_name: "Contributor".to_string() },
    ];
    let groups = vec![Group { id: 20, display_name: "Engineers".to_string() }];
    let assignments = vec![
        assignment(100, PrincipalId::Group(20), 10),
        assignment(101, PrincipalId::Group(20), 11),
    ];
    let mut members = HashMap::new();
    members.insert(
        20,
        vec![PrincipalId::User(2), PrincipalId::User(1), PrincipalId::User(3)],
    );

    let outcome = run_audit(&users, &defs, &groups, &assignments, &members, &no_lists());

    assert_eq!(outcome.audit.role_assignments.len(), 4);
    let per_first: usize = outcome
        .audit
        .role_assignments
        .iter()
        .filter(|d| d.role_assignment.id == 100)
        .count();
    let per_second: usize = outcome
        .audit
        .role_assignments
        .iter()
        .filter(|d| d.role_assignment.id == 101)
        .count();
    assert_eq!(per_first, 2);
    assert_eq!(per_second, 2);
}

#[test]
fn group_without_fetched_members_is_skipped_with_diagnostic() {
    let users = vec![user(2, "alice@example.com", "Alice")];
    let defs = vec![RoleDefinition { id: 10, display_name: "Reader".to_string() }];
    let groups = vec![Group { id: 20, display_name: "Engineers".to_string() }];
    let assignments = vec![assignment(100, PrincipalId::Group(20), 10)];

    let outcome = run_audit(&users, &defs, &groups, &assignments, &no_lists(), &no_lists());

    assert!(outcome.audit.role_assignments.is_empty());
    assert_eq!(outcome.missing_members.len(), 1);
    assert_eq!(outcome.missing_members[0].group_id, 20);
    assert_eq!(outcome.missing_members[0].role_assignment_id, 100);
}

#[test]
fn unmatched_principals_yield_nothing() {
    // A service principal and an unknown identifier that matches neither
    // index: no discovery and no diagnostic beyond none at all.
    let users = vec![user(2, "alice@example.com", "Alice")];
    let defs = vec![RoleDefinition { id: 10, display_name: "Reader".to_string() }];
    let groups: Vec<Group> = Vec::new();
    let assignments = vec![
        assignment(100, PrincipalId::ServicePrincipal(77), 10),
        assignment(101, PrincipalId::Unknown(78), 10),
    ];

    let outcome = run_audit(&users, &defs, &groups, &assignments, &no_lists(), &no_lists());

    assert!(outcome.audit.role_assignments.is_empty());
    assert!(outcome.missing_definitions.is_empty());
    assert!(outcome.missing_members.is_empty());
}

#[test]
fn group_join_goes_by_underlying_identifier() {
    // The group index is keyed by raw identifier: a principal whose kind
    // the directory did not report still resolves to the group it names.
    let users = vec![user(2, "alice@example.com", "Alice")];
    let defs = vec![RoleDefinition { id: 10, display_name: "Reader".to_string() }];
    let groups = vec![Group { id: 20, display_name: "Engineers".to_string() }];
    let assignments = vec![assignment(100, PrincipalId::Unknown(20), 10)];
    let mut members = HashMap::new();
    members.insert(20, vec![PrincipalId::User(2)]);

    let outcome = run_audit(&users, &defs, &groups, &assignments, &members, &no_lists());

    assert_eq!(outcome.audit.role_assignments.len(), 1);
    assert_eq!(outcome.audit.role_assignments[0].user.display_name, "Alice");
}

#[test]
fn deferred_group_ids_are_deduplicated_in_first_occurrence_order() {
    let users: Vec<User> = Vec::new();
    let defs = vec![RoleDefinition { id: 10, display_name: "Reader".to_string() }];
    let groups = vec![
        Group { id: 21, display_name: "Operators".to_string() },
        Group { id: 20, display_name: "Engineers".to_string() },
    ];
    let assignments = vec![
        assignment(100, PrincipalId::Group(21), 10),
        assignment(101, PrincipalId::Group(20), 10),
        assignment(102, PrincipalId::Group(21), 10),
    ];
    let index = build_identity_index(&users, &defs, &groups);
    let classified = classify_role_assignments(&assignments, &index);
    assert_eq!(classified.deferred.len(), 3);
    let ids = deferred_group_ids(&classified.deferred);
    assert_eq!(ids, vec![21, 20]);
}

#[test]
fn direct_and_group_discoveries_keep_pass_order() {
    // Direct discoveries of the first pass come before the expanded
    // group-mediated ones, each in assignment order.
    let users = vec![
        user(2, "alice@example.com", "Alice"),
        user(3, "carol@example.com", "Carol"),
    ];
    let defs = vec![RoleDefinition { id: 10, display_name: "Reader".to_string() }];
    let groups = vec![Group { id: 20, display_name: "Engineers".to_string() }];
    let assignments = vec![
        assignment(100, PrincipalId::Group(20), 10),
        assignment(101, PrincipalId::User(3), 10),
    ];
    let mut members = HashMap::new();
    members.insert(20, vec![PrincipalId::User(2)]);

    let outcome = run_audit(&users, &defs, &groups, &assignments, &members, &no_lists());

    assert_eq!(outcome.audit.role_assignments.len(), 2);
    assert_eq!(outcome.audit.role_assignments[0].user.display_name, "Carol");
    assert!(matches!(
        outcome.audit.role_assignments[0].source,
        RoleAssignmentSource::Direct
    ));
    assert_eq!(outcome.audit.role_assignments[1].user.display_name, "Alice");
}

#[test]
fn role_assignment_resolver_combines_both_passes() {
    let users = vec![
        user(2, "alice@example.com", "Alice"),
        user(3, "carol@example.com", "Carol"),
    ];
    let defs = vec![RoleDefinition { id: 10, display_name: "Reader".to_string() }];
    let groups = vec![Group { id: 20, display_name: "Engineers".to_string() }];
    let assignments = vec![
        assignment(100, PrincipalId::User(3), 10),
        assignment(101, PrincipalId::Group(20), 10),
    ];
    let mut members = HashMap::new();
    members.insert(20, vec![PrincipalId::User(2)]);

    let index = build_identity_index(&users, &defs, &groups);
    let resolution = get_non_admin_users_with_role_assignments(&assignments, &index, &members);

    assert_eq!(resolution.discoveries.len(), 2);
    assert_eq!(resolution.discoveries[0].user.display_name, "Carol");
    assert_eq!(resolution.discoveries[1].user.display_name, "Alice");
    assert!(resolution.missing_definitions.is_empty());
    assert!(resolution.missing_members.is_empty());
}

#[test]
fn ownership_resolver_walks_every_group_in_order() {
    let users = vec![user(3, "carol@example.com", "Carol")];
    let defs: Vec<RoleDefinition> = Vec::new();
    let groups = vec![
        Group { id: 20, display_name: "Engineers".to_string() },
        Group { id: 21, display_name: "Operators".to_string() },
    ];
    let mut owners = HashMap::new();
    owners.insert(20, vec![PrincipalId::User(3)]);
    owners.insert(21, vec![PrincipalId::User(3)]);

    let index = build_identity_index(&users, &defs, &groups);
    let discoveries = get_non_admin_group_owners(&groups, &owners, &index.non_admin_users);

    assert_eq!(discoveries.len(), 2);
    assert_eq!(discoveries[0].group.display_name, "Engineers");
    assert_eq!(discoveries[1].group.display_name, "Operators");
    assert_eq!(discoveries[0].owner.display_name, "Carol");
}
