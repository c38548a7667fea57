//! Roles: the record, and the rules for creating and renaming one. No two
//! roles may have the same name.

use vstd::prelude::*;
use vstd::std_specs::convert::FromSpecImpl;
use crate::error::{optional_outcome, outcome, ServiceError, ServiceErrorView};
use crate::model::{
    first_with_id, has_id, lemma_filter_keeps_first_with_id, lemma_filter_keeps_witnesses,
    lemma_views_push, position_of_id, views, Row,
};

verus! {

/// A stored role.
#[derive(Debug, PartialEq, Eq)]
pub struct Role {
    pub id: i32,
    pub name: String,
}

/// The mathematical value of a `Role`.
pub struct RoleView {
    pub id: i32,
    pub name: Seq<char>,
}

impl View for Role {
    type V = RoleView;

    open spec fn view(&self) -> RoleView {
        RoleView { id: self.id, name: self.name@ }
    }
}

impl Clone for Role {
    fn clone(&self) -> (r: Self)
        ensures
            r@ == self@,
    {
        Role { id: self.id, name: self.name.clone() }
    }
}

impl Row for Role {
    open spec fn row_id(&self) -> i32 {
        self.id
    }

    fn id(&self) -> (id: i32) {
        self.id
    }
}

/// A role as the service shows it.
#[derive(Debug, Clone, PartialEq, Eq)]
pub struct RoleDto {
    pub id: i32,
    pub name: String,
}

impl View for RoleDto {
    type V = RoleView;

    open spec fn view(&self) -> RoleView {
        RoleView { id: self.id, name: self.name@ }
    }
}

impl From<Role> for RoleDto {
    fn from(model: Role) -> (dto: RoleDto) {
        RoleDto { id: model.id, name: model.name }
    }
}

impl FromSpecImpl<Role> for RoleDto {
    open spec fn obeys_from_spec() -> bool {
        true
    }

    open spec fn from_spec(model: Role) -> RoleDto {
        RoleDto { id: model.id, name: model.name }
    }
}

/// A role that is to be stored: storage gives it its id.
#[derive(Debug, Clone, PartialEq, Eq)]
pub struct CreateRoleDto {
    pub name: String,
}

impl View for CreateRoleDto {
    type V = Seq<char>;

    open spec fn view(&self) -> Seq<char> {
        self.name@
    }
}

/// Some row is named `name`, not counting the rows with the id `except`.
pub open spec fn role_name_held(rows: Seq<RoleView>, name: Seq<char>, except: Option<i32>) -> bool {
    exists|i: int|
        0 <= i < rows.len() && (#[trigger] rows[i]).name == name && except != Some(rows[i].id)
}

/// The text of the error that a role that is not stored gives.
pub open spec fn role_missing_text() -> Seq<char> {
    "role does not exist"@
}

/// The text of the conflict that a taken role name gives.
pub open spec fn role_conflict_text() -> Seq<char> {
    "role already exists"@
}

/// What creating a role named `name` comes to, with `rows` stored: a
/// conflict where a row has the name, else the role to store.
pub open spec fn create_role_verdict(rows: Seq<RoleView>, name: Seq<char>) -> Result<
    Seq<char>,
    ServiceErrorView,
> {
    if role_name_held(rows, name, None) {
        Err(ServiceErrorView::Conflict(role_conflict_text()))
    } else {
        Ok(name)
    }
}

/// What renaming the role `id` to `name` comes to, with `rows` stored:
/// nothing where no row has the id; the row unchanged where it has the
/// name already; a conflict where another row has the name; else the row
/// under its new name.
pub open spec fn update_role_verdict(rows: Seq<Role>, id: i32, name: Seq<char>) -> Result<
    Option<RoleView>,
    ServiceErrorView,
> {
    if !has_id(rows, id) {
        Ok(None)
    } else if rows[first_with_id(rows, id)]@.name != name && role_name_held(
        views(rows),
        name,
        Some(id),
    ) {
        Err(ServiceErrorView::Conflict(role_conflict_text()))
    } else {
        Ok(Some(RoleView { id, name }))
    }
}

/// Creating a role under the name of a stored role gives a conflict, and
/// so no role to store.
pub proof fn lemma_create_role_conflicts(rows: Seq<RoleView>, name: Seq<char>)
    requires
        role_name_held(rows, name, None),
    ensures
        create_role_verdict(rows, name) == Err::<Seq<char>, ServiceErrorView>(
            ServiceErrorView::Conflict(role_conflict_text()),
        ),
{
}

/// Creating a role under a name that no stored role has gives that role
/// to store.
pub proof fn lemma_create_role_succeeds(rows: Seq<RoleView>, name: Seq<char>)
    requires
        !role_name_held(rows, name, None),
    ensures
        create_role_verdict(rows, name) == Ok::<Seq<char>, ServiceErrorView>(name),
{
}

/// Renaming a role to the name that it has never gives a conflict.
pub proof fn lemma_rename_to_own_name(rows: Seq<Role>, id: i32, name: Seq<char>)
    requires
        has_id(rows, id),
        rows[first_with_id(rows, id)]@.name == name,
    ensures
        update_role_verdict(rows, id, name) == Ok::<Option<RoleView>, ServiceErrorView>(
            Some(RoleView { id, name }),
        ),
{
}

/// Renaming a role to a name that it does not have and that the row at
/// `other`, a row with another id, has gives a conflict.
pub proof fn lemma_rename_to_name_of_other(rows: Seq<Role>, id: i32, name: Seq<char>, other: int)
    requires
        has_id(rows, id),
        rows[first_with_id(rows, id)]@.name != name,
        0 <= other < rows.len(),
        rows[other].id != id,
        rows[other]@.name == name,
    ensures
        update_role_verdict(rows, id, name) == Err::<Option<RoleView>, ServiceErrorView>(
            ServiceErrorView::Conflict(role_conflict_text()),
        ),
{
    assert(views(rows)[other].name == name);
}

/// Renaming a role whose id no stored role has finds nothing, and is no
/// error.
pub proof fn lemma_rename_missing_role(rows: Seq<Role>, id: i32, name: Seq<char>)
    requires
        !has_id(rows, id),
    ensures
        update_role_verdict(rows, id, name) == Ok::<Option<RoleView>, ServiceErrorView>(None),
{
}

/// Creating a role named `name` looks only at the rows with that name:
/// the outcome is the same after any other rows are left out.
pub proof fn lemma_create_role_reads(
    rows: Seq<RoleView>,
    name: Seq<char>,
    kept: spec_fn(RoleView) -> bool,
)
    requires
        forall|r: RoleView| r.name == name ==> #[trigger] kept(r),
    ensures
        create_role_verdict(rows.filter(kept), name) == create_role_verdict(rows, name),
{
    lemma_filter_keeps_witnesses(rows, kept, |r: RoleView| r.name == name && None::<i32> != Some(r.id));
}

/// Renaming the role `id` to `name` looks only at the rows with that id
/// or that name: the outcome is the same after any other rows are left
/// out.
pub proof fn lemma_update_role_reads(
    rows: Seq<Role>,
    id: i32,
    name: Seq<char>,
    kept: spec_fn(Role) -> bool,
)
    requires
        forall|r: Role| r.id == id || r@.name == name ==> #[trigger] kept(r),
    ensures
        update_role_verdict(rows.filter(kept), id, name) == update_role_verdict(rows, id, name),
{
    let f = rows.filter(kept);
    lemma_filter_keeps_first_with_id(rows, id, kept);
    lemma_filter_keeps_witnesses(rows, kept, |r: Role| r@.name == name && Some(id) != Some(r.id));
    if role_name_held(views(rows), name, Some(id)) {
        let i = choose|i: int|
            0 <= i < views(rows).len() && (#[trigger] views(rows)[i]).name == name && Some(id)
                != Some(views(rows)[i].id);
        assert(rows[i]@.name == name && Some(id) != Some(rows[i].id));
        let j = choose|j: int|
            0 <= j < f.len() && (#[trigger] f[j])@.name == name && Some(id) != Some(f[j].id);
        assert(views(f)[j].name == name);
    }
    if role_name_held(views(f), name, Some(id)) {
        let j = choose|j: int|
            0 <= j < views(f).len() && (#[trigger] views(f)[j]).name == name && Some(id) != Some(
                views(f)[j].id,
            );
        assert(f[j]@.name == name && Some(id) != Some(f[j].id));
        let i = choose|i: int|
            0 <= i < rows.len() && (#[trigger] rows[i])@.name == name && Some(id) != Some(
                rows[i].id,
            );
        assert(views(rows)[i].name == name);
    }
}

pub struct RoleService;

impl RoleService {
    /// Whether some row of `roles` is named `name`, not counting the rows
    /// with the id `except`.
    pub fn name_held(roles: &Vec<Role>, name: &String, except: Option<i32>) -> (held: bool)
        ensures
            held == role_name_held(views(roles@), name@, except),
    {
        let mut i: usize = 0;
        while i < roles.len()
            invariant
                i <= roles.len(),
                forall|j: int|
                    0 <= j < i ==> !((#[trigger] views(roles@)[j]).name == name@ && except != Some(
                        views(roles@)[j].id,
                    )),
            decreases roles.len() - i,
        {
            let other = match except {
                Some(own) => roles[i].id != own,
                None => true,
            };
            if other && roles[i].name == *name {
                assert(views(roles@)[i as int].name == name@);
                return true;
            }
            i += 1;
        }
        false
    }

    /// All roles, as they are stored.
    pub fn get_all_roles(roles: &Vec<Role>) -> (all: Vec<Role>)
        ensures
            views(all@) == views(roles@),
    {
        let mut all: Vec<Role> = Vec::new();
        let mut i: usize = 0;
        while i < roles.len()
            invariant
                i <= roles.len(),
                views(all@) == views(roles@).take(i as int),
            decreases roles.len() - i,
        {
            let copy = roles[i].clone();
            proof {
                lemma_views_push(all@, copy);
                assert(views(roles@).take(i + 1) =~= views(roles@).take(i as int).push(
                    roles@[i as int]@,
                ));
            }
            all.push(copy);
            i += 1;
        }
        assert(views(roles@).take(roles.len() as int) =~= views(roles@));
        all
    }

    /// The first role with the id `id`.
    pub fn get_role_by_id(roles: &Vec<Role>, id: i32) -> (found: Option<Role>)
        ensures
            found is Some <==> has_id(roles@, id),
            found is Some ==> found->0@ == roles@[first_with_id(roles@, id)]@,
    {
        let at = position_of_id(roles, id);
        if at < roles.len() {
            Some(roles[at].clone())
        } else {
            None
        }
    }

    /// Decides on a new role named `name`: a `Conflict` where a stored
    /// role has that name, else the role to store. Looks at the roles
    /// named `name`.
    pub fn create_role(roles: &Vec<Role>, name: String) -> (r: Result<CreateRoleDto, ServiceError>)
        ensures
            outcome(r) == create_role_verdict(views(roles@), name@),
    {
        if Self::name_held(roles, &name, None) {
            return Err(ServiceError::conflict("role already exists"));
        }
        Ok(CreateRoleDto { name })
    }

    /// Decides on renaming the role `id` to `name`: `None` where no role
    /// has the id, a `Conflict` where the name is new to the role and
    /// another role has it, else the row to store in place of the old one.
    /// Looks at the role `id` and at the roles named `name`.
    pub fn update_role(roles: &Vec<Role>, id: i32, name: String) -> (r: Result<
        Option<Role>,
        ServiceError,
    >)
        ensures
            optional_outcome(r) == update_role_verdict(roles@, id, name@),
    {
        let at = position_of_id(roles, id);
        if at >= roles.len() {
            return Ok(None);
        }
        if roles[at].name != name && Self::name_held(roles, &name, Some(id)) {
            return Err(ServiceError::conflict("role already exists"));
        }
        Ok(Some(Role { id, name }))
    }
}

} // verus!
