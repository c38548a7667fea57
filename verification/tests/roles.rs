use canteen::error::ServiceError;
use canteen::identity::UserService;
use canteen::role::{CreateRoleDto, Role, RoleDto, RoleService};

fn role(id: i32, name: &str) -> Role {
    Role { id, name: name.to_string() }
}

fn stored() -> Vec<Role> {
    vec![role(1, "admin"), role(2, "cook"), role(3, "guest")]
}

#[test]
fn new_role_with_a_new_name_is_stored() {
    assert_eq!(
        RoleService::create_role(&stored(), "cashier".to_string()),
        Ok(CreateRoleDto { name: "cashier".to_string() })
    );
    assert_eq!(
        RoleService::create_role(&Vec::new(), "admin".to_string()),
        Ok(CreateRoleDto { name: "admin".to_string() })
    );
}

#[test]
fn new_role_with_a_taken_name_is_a_conflict() {
    assert_eq!(
        RoleService::create_role(&stored(), "cook".to_string()),
        Err(ServiceError::Conflict("role already exists".to_string()))
    );
}

#[test]
fn role_names_are_told_apart_by_case() {
    assert!(RoleService::create_role(&stored(), "Cook".to_string()).is_ok());
}

#[test]
fn rename_to_the_own_name_is_no_conflict() {
    assert_eq!(RoleService::update_role(&stored(), 2, "cook".to_string()), Ok(Some(role(2, "cook"))));
}

#[test]
fn rename_to_the_name_of_another_role_is_a_conflict() {
    assert_eq!(
        RoleService::update_role(&stored(), 2, "admin".to_string()),
        Err(ServiceError::Conflict("role already exists".to_string()))
    );
}

#[test]
fn rename_to_a_new_name_gives_the_changed_row() {
    assert_eq!(RoleService::update_role(&stored(), 3, "visitor".to_string()), Ok(Some(role(3, "visitor"))));
}

#[test]
fn rename_of_a_missing_role_finds_nothing() {
    assert_eq!(RoleService::update_role(&stored(), 9, "admin".to_string()), Ok(None));
    assert_eq!(RoleService::update_role(&Vec::new(), 1, "x".to_string()), Ok(None));
}

#[test]
fn name_held_leaves_out_the_given_id() {
    let roles = stored();
    assert!(RoleService::name_held(&roles, &"cook".to_string(), None));
    assert!(!RoleService::name_held(&roles, &"cook".to_string(), Some(2)));
    assert!(RoleService::name_held(&roles, &"cook".to_string(), Some(1)));
    assert!(!RoleService::name_held(&roles, &"nobody".to_string(), None));
}

#[test]
fn roles_are_read_by_id() {
    let roles = stored();
    assert_eq!(RoleService::get_all_roles(&roles), roles);
    assert_eq!(RoleService::get_role_by_id(&roles, 3), Some(role(3, "guest")));
    assert_eq!(RoleService::get_role_by_id(&roles, 4), None);
    assert_eq!(RoleDto::from(role(3, "guest")), RoleDto { id: 3, name: "guest".to_string() });
}

#[test]
fn role_data_of_a_missing_role_is_not_found() {
    let service = UserService::new(&stored());
    assert_eq!(service.roles, stored());
    assert_eq!(service.get_role_data(1), Ok(role(1, "admin")));
    assert_eq!(service.get_role_data(7), Err(ServiceError::NotFound("Role not found".to_string())));
}

#[test]
fn identity_service_refuses_a_taken_role_name() {
    let service = UserService::new(&stored());
    assert_eq!(
        service.create_role("admin".to_string()),
        Err(ServiceError::Conflict("role already exists".to_string()))
    );
    assert_eq!(
        service.create_role("cashier".to_string()),
        Ok(CreateRoleDto { name: "cashier".to_string() })
    );
    assert_eq!(
        UserService::new(&Vec::new()).create_role("admin".to_string()),
        Ok(CreateRoleDto { name: "admin".to_string() })
    );
}

#[test]
fn error_gives_its_message() {
    assert_eq!(ServiceError::conflict("a").message(), "a");
    assert_eq!(ServiceError::reference_not_found("b").message(), "b");
    assert_eq!(ServiceError::not_found("c").message(), "c");
    assert_eq!(ServiceError::store("d".to_string()).message(), "d");
    assert_eq!(ServiceError::store("d".to_string()), ServiceError::StoreError("d".to_string()));
    assert_eq!(ServiceError::conflict("a"), ServiceError::Conflict("a".to_string()));
    assert_eq!(ServiceError::reference_not_found("b"), ServiceError::ReferenceNotFound("b".to_string()));
    assert_eq!(ServiceError::not_found("c"), ServiceError::NotFound("c".to_string()));
}

#[test]
fn error_leaves_under_its_status() {
    assert_eq!(ServiceError::not_found("c").status(), 404);
    assert_eq!(ServiceError::conflict("a").status(), 500);
    assert_eq!(ServiceError::reference_not_found("b").status(), 500);
    assert_eq!(ServiceError::store("d".to_string()).status(), 500);
}

#[test]
fn rules_on_roles_read_only_the_rows_they_name() {
    let all = stored();
    for (id, name) in [(2, "cook"), (2, "admin"), (3, "visitor"), (9, "admin")] {
        let near: Vec<Role> = all.iter().filter(|r| r.id == id || r.name == name).cloned().collect();
        assert_eq!(
            RoleService::update_role(&near, id, name.to_string()),
            RoleService::update_role(&all, id, name.to_string())
        );
        let named: Vec<Role> = all.iter().filter(|r| r.name == name).cloned().collect();
        assert_eq!(
            RoleService::create_role(&named, name.to_string()),
            RoleService::create_role(&all, name.to_string())
        );
    }
}
