use submitsnap_core::identity::administration::{
    check_an_admin_remains, check_deletion_confirmation, drops_admin, refuse_self,
    reject_unknown_roles, role_changes, roles_by_user, status_revokes_sessions, with_role,
};
use submitsnap_core::identity::dto::{AccountStatusUpdate, AdminUser, LoginRequest, RegisterRequest};
use submitsnap_core::identity::error::IdentityError;
use submitsnap_core::identity::events::AuthEventType;
use submitsnap_core::identity::lifecycle::{
    after_right_password, after_wrong_password, change_password_check, initial_status,
    insert_failure, lockout_threshold, login_gate, reset_is_issued, verification_is_resent,
    LoginGate,
};
use submitsnap_core::identity::mail::{reset_email, verification_email, verification_link};
use submitsnap_core::identity::model::{normalize_email, UserRecord, UserStatus};
use submitsnap_core::identity::password::PasswordHasher;
use submitsnap_core::queue::{after_failed_enqueue, EnqueueRetry};
use submitsnap_core::rbac::RoleName;
use submitsnap_core::identity::events::{ action_event, bootstrap_grant, organization_event, own_event, resource_event, ClientInfo, };
use submitsnap_core::identity::lifecycle::clears_stale_lock;
use submitsnap_core::identity::lifecycle::next_ledger;

fn hasher(pepper: Option<&str>) -> PasswordHasher {
    PasswordHasher::new(pepper.map(|value| value.to_owned())).unwrap()
}

fn user(status: UserStatus) -> UserRecord {
    UserRecord {
        id: 7,
        email: "person@example.com".to_owned(),
        password_hash: String::new(),
        status,
        email_verified_at: None,
        last_login_at: None,
        failed_login_attempts: 0,
        locked_until: None,
        password_changed_at: 0,
        created_at: 0,
        updated_at: 0,
    }
}

fn roles(names: &[&str]) -> Vec<RoleName> {
    names.iter().map(|n| RoleName::new((*n).to_owned())).collect()
}

fn names(roles: &[RoleName]) -> Vec<&str> {
    roles.iter().map(|r| r.as_str()).collect()
}

#[test]
fn emails_are_trimmed_and_lowercased() {
    assert_eq!(normalize_email("  Person@Example.COM "), "person@example.com");
}

#[test]
fn passwords_round_trip_without_being_stored_in_clear() {
    let hasher = hasher(None);
    let hash = hasher.hash("a sufficiently long password").unwrap();

    assert!(!hash.contains("a sufficiently long password"));
    assert!(hash.starts_with("$argon2id$"));
    assert!(hasher.verify("a sufficiently long password", &hash));
    assert!(!hasher.verify("wrong password", &hash));
}

#[test]
fn salts_make_identical_passwords_hash_differently() {
    let hasher = hasher(None);

    assert_ne!(
        hasher.hash("a sufficiently long password").unwrap(),
        hasher.hash("a sufficiently long password").unwrap()
    );
}

#[test]
fn pepper_is_required_to_verify() {
    let peppered = hasher(Some("server-side-pepper"));
    let unpeppered = hasher(None);
    let hash = peppered.hash("a sufficiently long password").unwrap();

    assert!(peppered.verify("a sufficiently long password", &hash));
    assert!(!unpeppered.verify("a sufficiently long password", &hash));
}

#[test]
fn current_hashes_do_not_need_a_rehash() {
    let hasher = hasher(None);
    let hash = hasher.hash("a sufficiently long password").unwrap();

    assert!(!hasher.needs_rehash(&hash));
    assert!(hasher.needs_rehash("not-a-password-hash"));
}

#[test]
fn malformed_hashes_never_verify() {
    let hasher = hasher(None);

    assert!(!hasher.verify("a sufficiently long password", "not-a-password-hash"));
    assert!(!hasher.verify("a sufficiently long password", ""));
}

#[test]
fn a_locked_account_is_refused_before_its_password_is_looked_at() {
    let mut locked = user(UserStatus::Disabled);
    locked.locked_until = Some(100);
    assert!(matches!(login_gate(Some(&locked), 50), LoginGate::Refuse(IdentityError::AccountLocked)));
    assert!(matches!(login_gate(Some(&locked), 100), LoginGate::Refuse(IdentityError::AccountDisabled)));
    assert!(matches!(login_gate(Some(&user(UserStatus::Active)), 50), LoginGate::CheckPassword));
    assert!(matches!(login_gate(None, 50), LoginGate::UnknownAccount));
}

#[test]
fn a_wrong_password_is_answered_alike_unless_it_locks_the_account() {
    assert!(matches!(after_wrong_password(None, 10), (IdentityError::InvalidCredentials, false)));
    assert!(matches!(after_wrong_password(Some(5), 10), (IdentityError::InvalidCredentials, false)));
    assert!(matches!(after_wrong_password(Some(20), 10), (IdentityError::AccountLocked, true)));
    assert_eq!(lockout_threshold(5), 5);
    assert_eq!(lockout_threshold(u32::MAX), i32::MAX);
}

#[test]
fn an_unconfirmed_address_signs_in_only_when_confirmation_is_optional() {
    let mut account = user(UserStatus::Pending);
    assert!(matches!(after_right_password(&account, true), Err(IdentityError::EmailNotVerified)));
    assert!(after_right_password(&account, false).is_ok());
    account.email_verified_at = Some(1);
    assert!(after_right_password(&account, true).is_ok());
    assert_eq!(initial_status(true), UserStatus::Pending);
    assert_eq!(initial_status(false), UserStatus::Active);
    assert!(matches!(change_password_check(false), Err(IdentityError::InvalidCredentials)));
}

#[test]
fn recovery_mail_goes_only_to_accounts_that_can_use_it() {
    assert!(!reset_is_issued(None));
    assert!(!reset_is_issued(Some(&user(UserStatus::Disabled))));
    assert!(reset_is_issued(Some(&user(UserStatus::Pending))));
    let mut confirmed = user(UserStatus::Active);
    assert!(verification_is_resent(Some(&confirmed)));
    confirmed.email_verified_at = Some(1);
    assert!(!verification_is_resent(Some(&confirmed)));
    assert!(!verification_is_resent(Some(&user(UserStatus::Disabled))));
}

#[test]
fn links_point_at_the_web_application() {
    assert_eq!(
        verification_link("https://app.example.com//", "tok"),
        "https://app.example.com/verify-email?token=tok"
    );
    let reset = reset_email("a@b.co", "https://app.example.com", "tok");
    assert_eq!(reset.subject, "Reset your SubmitSnap password");
    assert_eq!(
        reset.text_body,
        "Use this link to choose a new password:\nhttps://app.example.com/reset-password?token=tok\n\nIf you did not request this, you can ignore this message."
    );
    let confirm = verification_email("a@b.co", "https://app.example.com/", "t");
    assert_eq!(confirm.to, "a@b.co");
    assert_eq!(confirm.text_body, "Confirm your email address by visiting:\nhttps://app.example.com/verify-email?token=t\n");
}

#[test]
fn handing_mail_to_the_queue_backs_off_then_gives_up() {
    assert_eq!(after_failed_enqueue(1), EnqueueRetry::After(50));
    assert_eq!(after_failed_enqueue(2), EnqueueRetry::After(100));
    assert_eq!(after_failed_enqueue(3), EnqueueRetry::GiveUp);
}

#[test]
fn administrators_cannot_disable_or_delete_themselves() {
    assert!(matches!(refuse_self(1, 1), Err(IdentityError::SelfTargeted)));
    assert!(refuse_self(1, 2).is_ok());
    assert!(status_revokes_sessions(UserStatus::Disabled));
    assert!(!status_revokes_sessions(UserStatus::Active));
    assert!(check_deletion_confirmation(" Person@Example.com ", &"person@example.com".to_owned()).is_ok());
    assert!(matches!(
        check_deletion_confirmation("other@example.com", &"person@example.com".to_owned()),
        Err(IdentityError::ConfirmationMismatch)
    ));
    assert_eq!(UserStatus::from(AccountStatusUpdate::Disabled), UserStatus::Disabled);
}

#[test]
fn the_last_administrator_keeps_the_role() {
    assert!(matches!(check_an_admin_remains(&vec![7], 7), Err(IdentityError::LastAdministrator)));
    assert!(check_an_admin_remains(&vec![7, 8], 7).is_ok());
    assert!(check_an_admin_remains(&vec![8], 7).is_ok());
    assert!(drops_admin(&roles(&["admin", "user"]), &roles(&["user"])));
    assert!(!drops_admin(&roles(&["user"]), &roles(&["user"])));
}

#[test]
fn role_changes_list_every_grant_and_revocation() {
    let changes = role_changes(&roles(&["admin", "user"]), &roles(&["user", "auditor", "user"]));
    assert_eq!(names(&changes.desired), vec!["user", "auditor"]);
    assert_eq!(names(&changes.granted), vec!["auditor"]);
    assert_eq!(names(&changes.revoked), vec!["admin"]);

    match reject_unknown_roles(&roles(&["user", "ghost", "boo"]), &roles(&["admin", "user"])) {
        Err(IdentityError::UnknownRole(name)) => assert_eq!(name, "ghost"),
        other => panic!("{other:?}"),
    }
    assert!(reject_unknown_roles(&roles(&["user"]), &roles(&["admin", "user"])).is_ok());
    assert_eq!(names(&with_role(roles(&["user"]), &RoleName::admin())), vec!["user", "admin"]);
    assert_eq!(names(&with_role(roles(&["admin"]), &RoleName::admin())), vec!["admin"]);
}

#[test]
fn roles_are_grouped_by_account() {
    let rows = vec![(1u128, "admin".to_owned()), (2, "user".to_owned()), (1, "user".to_owned())];
    let grouped = roles_by_user(&vec![1, 3, 2], &rows);
    assert_eq!(grouped.iter().map(|r| names(r)).collect::<Vec<_>>(), vec![vec!["admin", "user"], vec![], vec!["user"]]);
}

#[test]
fn a_duplicate_address_is_reported_as_taken() {
    assert!(matches!(
        insert_failure(Some("23505"), Some("users_email_key"), "x".to_owned()),
        IdentityError::EmailTaken
    ));
    assert!(matches!(insert_failure(Some("23505"), Some("users_pkey"), "x".to_owned()), IdentityError::Internal(_)));
    assert!(matches!(insert_failure(None, None, "x".to_owned()), IdentityError::Internal(_)));
}

#[test]
fn requests_are_checked_field_by_field() {
    let register = RegisterRequest { email: "a@b.co".to_owned(), password: "x".repeat(12) };
    assert!(register.is_valid());
    let short = RegisterRequest { email: "a@b.co".to_owned(), password: "x".repeat(11) };
    assert!(!short.is_valid());
    let login = LoginRequest { email: "not an address".to_owned(), password: "x".to_owned() };
    assert!(!login.is_valid());
}

#[test]
fn the_administrator_view_carries_the_lock_state() {
    let mut account = user(UserStatus::Active);
    account.failed_login_attempts = 3;
    account.locked_until = Some(9);
    let view = AdminUser::new(&account, roles(&["user"]));
    assert_eq!((view.failed_login_attempts, view.locked_until), (3, Some(9)));
    assert!(!view.email_verified);
    assert_eq!(AuthEventType::TokenReuseDetected.as_str(), "token_reuse_detected");
}

#[test]
fn audit_records_name_who_did_what_to_whom() {
    let client = || ClientInfo { ip_address: Some("203.0.113.9".to_owned()), user_agent: None };
    let own = own_event(AuthEventType::LoginFailed, Some(7), Some("a@b.co".to_owned()), client());
    assert_eq!((own.user_id, own.actor_user_id), (Some(7), Some(7)));
    let action = action_event(AuthEventType::RoleGranted, 1, Some(7), None, client());
    assert_eq!((action.user_id, action.actor_user_id), (Some(7), Some(1)));
    let grant = bootstrap_grant(7, "a@b.co".to_owned());
    assert_eq!((grant.actor_user_id, grant.event_type), (None, AuthEventType::RoleGranted));
    let member = organization_event(AuthEventType::OrganizationMemberAdded, 3, 1, Some(7), None, client());
    assert_eq!((member.organization_id, member.target_id), (Some(3), None));
    let form = resource_event(AuthEventType::FormCreated, 3, 1, 5, Some("Contact".to_owned()), client());
    assert_eq!((form.user_id, form.target_id, form.email.as_deref()), (None, Some(5), Some("Contact")));
    assert_eq!(form.ip_address.as_deref(), Some("203.0.113.9"));
}

#[test]
fn a_lingering_lock_is_cleared_before_a_failure_is_counted() {
    let mut account = user(UserStatus::Active);
    assert!(!clears_stale_lock(&account));
    account.locked_until = Some(1);
    assert!(clears_stale_lock(&account));
    assert!(account.is_locked(0));
    assert!(!account.is_locked(1));
    hasher(None).verify_canary("anything");
}

#[test]
fn the_ledger_counts_each_failure_and_locks_at_the_threshold() {
    assert_eq!(next_ledger(0, 5, None, 9_000), Some((1, None)));
    assert_eq!(next_ledger(3, 5, None, 9_000), Some((4, None)));
    assert_eq!(next_ledger(4, 5, None, 9_000), Some((5, Some(9_000))));
    assert_eq!(next_ledger(7, 5, Some(100), 9_000), Some((8, Some(9_000))));
    assert_eq!(next_ledger(1, 5, Some(100), 9_000), Some((2, Some(100))));
    assert_eq!(next_ledger(i32::MAX, 5, None, 9_000), None);

    let (_, lock) = next_ledger(4, 5, None, 9_000).unwrap();
    assert!(matches!(after_wrong_password(lock, 1_000).0, IdentityError::AccountLocked));
}

#[test]
fn normalizing_an_address_twice_changes_nothing() {
    for address in ["  Person@Example.COM ", "\tA.B+c@D.org\n", "already@plain.io", "   "] {
        let once = normalize_email(address);
        assert_eq!(normalize_email(&once), once);
        assert_eq!(once.trim(), once);
    }
}

#[test]
fn password_hashes_are_not_reversible() {
    let hasher = PasswordHasher::new(None).unwrap();
    let hash = hasher.hash("a sufficiently long password").unwrap();
    assert_ne!(hash, "a sufficiently long password");
    assert!(hasher.verify("a sufficiently long password", &hash));
    assert!(!hasher.verify("wrong password", &hash));
}
