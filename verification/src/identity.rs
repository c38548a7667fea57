//! Roles as the identity pages read them: a role by its id, and a new
//! role under a name that no role has yet.

use vstd::prelude::*;
use crate::error::{outcome, ServiceError, ServiceErrorView};
use crate::model::{first_with_id, has_id, position_of_id, views};
use crate::role::{create_role_verdict, CreateRoleDto, Role, RoleService, RoleView};

verus! {

/// The text of the error that an id without a role gives.
pub open spec fn role_not_found_text() -> Seq<char> {
    "Role not found"@
}

/// The first role with the id `role_id`, or the error that there is none.
pub open spec fn role_data_verdict(roles: Seq<Role>, role_id: i32) -> Result<
    RoleView,
    ServiceErrorView,
> {
    if has_id(roles, role_id) {
        Ok(roles[first_with_id(roles, role_id)]@)
    } else {
        Err(ServiceErrorView::NotFound(role_not_found_text()))
    }
}

/// The roles that storage holds, as they were read.
pub struct UserService {
    pub roles: Vec<Role>,
}

impl UserService {
    /// A service over a copy of `roles`.
    pub fn new(roles: &Vec<Role>) -> (service: UserService)
        ensures
            views(service.roles@) == views(roles@),
    {
        UserService { roles: RoleService::get_all_roles(roles) }
    }

    /// The first role with the id `role_id`; a `NotFound` where there is
    /// none.
    pub fn get_role_data(&self, role_id: i32) -> (r: Result<Role, ServiceError>)
        ensures
            outcome(r) == role_data_verdict(self.roles@, role_id),
    {
        let at = position_of_id(&self.roles, role_id);
        if at < self.roles.len() {
            Ok(self.roles[at].clone())
        } else {
            Err(ServiceError::not_found("Role not found"))
        }
    }

    /// Decides on a new role named `name`: a `Conflict` where a role of
    /// the service has that name, else the role to store.
    pub fn create_role(&self, name: String) -> (r: Result<CreateRoleDto, ServiceError>)
        ensures
            outcome(r) == create_role_verdict(views(self.roles@), name@),
    {
        RoleService::create_role(&self.roles, name)
    }
}

} // verus!
