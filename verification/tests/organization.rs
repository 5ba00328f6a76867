use submitsnap_core::organization::{
    decide_add_member, decide_remove_member, decide_set_member_role, require_another_owner,
    stored_name, CreateOrganizationRequest, MembershipStep, OrganizationError, OrganizationRole,
};
use submitsnap_core::rbac::{RoleName, USER_ROLE};

#[test]
fn an_owner_reaches_everyone_and_nobody_else_reaches_an_owner() {
    assert!(OrganizationRole::Owner.reaches(OrganizationRole::Owner));
    assert!(OrganizationRole::Owner.reaches(OrganizationRole::Member));
    assert!(OrganizationRole::Admin.reaches(OrganizationRole::Member));
    assert!(OrganizationRole::Admin.reaches(OrganizationRole::Admin));

    assert!(!OrganizationRole::Admin.reaches(OrganizationRole::Owner));
    assert!(!OrganizationRole::Member.reaches(OrganizationRole::Member));
    assert!(!OrganizationRole::Member.reaches(OrganizationRole::Owner));
}

#[test]
fn only_owners_and_admins_manage() {
    assert!(OrganizationRole::Owner.is_manager());
    assert!(OrganizationRole::Admin.is_manager());
    assert!(!OrganizationRole::Member.is_manager());
    assert!(OrganizationRole::Owner.is_owner());
    assert!(!OrganizationRole::Admin.is_owner());
}

#[test]
fn built_in_roles_are_recognized() {
    assert!(RoleName::admin().is_admin());
    assert!(!RoleName::user().is_admin());
    assert_eq!(RoleName::user().to_string(), USER_ROLE);
}

#[test]
fn the_last_owner_cannot_leave() {
    assert!(matches!(require_another_owner(1), Err(OrganizationError::LastOwner)));
    assert!(require_another_owner(2).is_ok());
    assert_eq!(stored_name("  Acme  "), "Acme");
    assert!(CreateOrganizationRequest { name: "Acme".to_owned() }.is_valid());
    assert!(!CreateOrganizationRequest { name: String::new() }.is_valid());
}

#[test]
fn membership_changes_stay_within_the_actors_reach() {
    let step = decide_add_member(true, Some(OrganizationRole::Admin), OrganizationRole::Owner, None);
    assert!(matches!(step, Err(OrganizationError::InsufficientRole)));
    let step = decide_add_member(false, Some(OrganizationRole::Owner), OrganizationRole::Member, None);
    assert!(matches!(step, Err(OrganizationError::AccountNotFound)));
    let step = decide_add_member(true, Some(OrganizationRole::Owner), OrganizationRole::Member, None);
    assert_eq!(step.unwrap(), MembershipStep::Apply);
    let demote = decide_set_member_role(
        Some(OrganizationRole::Owner),
        Some(OrganizationRole::Owner),
        OrganizationRole::Admin,
    );
    assert_eq!(demote.unwrap(), MembershipStep::ApplyIfAnotherOwner);
    let same = decide_set_member_role(
        Some(OrganizationRole::Admin),
        Some(OrganizationRole::Member),
        OrganizationRole::Member,
    );
    assert_eq!(same.unwrap(), MembershipStep::Unchanged);
    let remove = decide_remove_member(Some(OrganizationRole::Member), Some(OrganizationRole::Member), false);
    assert!(matches!(remove, Err(OrganizationError::InsufficientRole)));
    let leave = decide_remove_member(Some(OrganizationRole::Member), Some(OrganizationRole::Member), true);
    assert_eq!(leave.unwrap(), MembershipStep::Apply);
    let outsider = decide_remove_member(None, Some(OrganizationRole::Member), false);
    assert!(matches!(outsider, Err(OrganizationError::NotAMember)));
}
