//! Tests of the run precondition and of audit assembly.

use admin_account_audit::config::check_output_preconditions;
use admin_account_audit::discovery::GroupOwnerDiscovery;
use admin_account_audit::discovery::assemble_audit;
use admin_account_audit::model::Group;
use admin_account_audit::model::User;

#[test]
fn existing_output_without_overwrite_flag_aborts_before_any_fetch() {
    // The guard runs before any network activity: an existing output path
    // without the overwrite flag is the only configuration error.
    assert!(check_output_preconditions(true, false).is_err());
    assert!(check_output_preconditions(true, true).is_ok());
    assert!(check_output_preconditions(false, false).is_ok());
    assert!(check_output_preconditions(false, true).is_ok());
}

#[test]
fn assemble_audit_preserves_discovery_order() {
    let owner_discoveries = vec![
        GroupOwnerDiscovery {
            group: Group { id: 20, display_name: "Engineers".to_string() },
            owner: User {
                id: 3,
                user_principal_name: "carol@example.com".to_string(),
                display_name: "Carol".to_string(),
            },
        },
        GroupOwnerDiscovery {
            group: Group { id: 21, display_name: "Operators".to_string() },
            owner: User {
                id: 3,
                user_principal_name: "carol@example.com".to_string(),
                display_name: "Carol".to_string(),
            },
        },
    ];
    let audit = assemble_audit(Vec::new(), owner_discoveries);
    assert!(audit.role_assignments.is_empty());
    assert_eq!(audit.group_owners.len(), 2);
    assert_eq!(audit.group_owners[0].group.display_name, "Engineers");
    assert_eq!(audit.group_owners[1].group.display_name, "Operators");
}
