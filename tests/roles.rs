use inventory_manager::roles::UserRole;

#[test]
fn role_names_parse_ignoring_case() {
    assert_eq!(UserRole::from_str("Admin"), Some(UserRole::Admin));
    assert_eq!(UserRole::from_str("MANAGER"), Some(UserRole::Manager));
    assert_eq!(UserRole::from_str("user"), Some(UserRole::User));
    assert_eq!(UserRole::from_str("superuser"), None);
    assert_eq!(UserRole::from_str(""), None);
}

#[test]
fn lowercase_parse_is_exact() {
    assert_eq!(UserRole::from_lowercase("admin"), Some(UserRole::Admin));
    assert_eq!(UserRole::from_lowercase("Admin"), None);
}

#[test]
fn role_names_print_in_lower_case() {
    assert_eq!(UserRole::Admin.to_string(), "admin");
    assert_eq!(UserRole::Manager.to_string(), "manager");
    assert_eq!(UserRole::User.to_string(), "user");
}

#[test]
fn override_role_passes_any_allow_list() {
    assert!(UserRole::Admin.is_override());
    assert!(!UserRole::Manager.is_override());
    assert!(UserRole::Admin.satisfies(&vec![]));
    assert!(UserRole::Admin.satisfies(&vec![UserRole::Manager]));
    assert!(UserRole::Admin.satisfies(&vec![UserRole::Admin]));
}

#[test]
fn other_roles_need_their_own_entry() {
    assert!(UserRole::Manager.satisfies(&vec![UserRole::User, UserRole::Manager]));
    assert!(!UserRole::Manager.satisfies(&vec![UserRole::User]));
    assert!(!UserRole::User.satisfies(&vec![UserRole::Admin]));
    assert!(!UserRole::Manager.satisfies(&vec![]));
}
