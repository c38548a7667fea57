//! Users: the record, the rules for creating and changing one, and the
//! list of the users of a group by what they owe.
//!
//! No two users may have the same email, the same display id or the same
//! name, and a user's role and group must be stored.

use vstd::prelude::*;
use vstd::std_specs::convert::FromSpecImpl;
use crate::calendar::Timestamp;
use crate::error::{optional_outcome, outcome, ServiceError, ServiceErrorView};
use crate::group::{group_missing_text, Group};
use crate::model::{
    contains_id, first_with_id, has_id, lemma_filter_keeps_first_with_id,
    lemma_filter_keeps_witnesses, lemma_views_push, position_of_id, views, Row,
};
use crate::role::{role_missing_text, Role};

verus! {

/// A stored user.
#[derive(Debug, PartialEq, Eq)]
pub struct User {
    pub id: i32,
    pub name: String,
    pub password: String,
    pub email: String,
    pub email_confirmed: bool,
    pub user_display_id: String,
    pub balance: i32,
    pub is_active: bool,
    pub role_id: i32,
    pub group_id: i32,
    pub created_date: Timestamp,
}

/// The mathematical value of a `User`.
pub struct UserView {
    pub id: i32,
    pub name: Seq<char>,
    pub password: Seq<char>,
    pub email: Seq<char>,
    pub email_confirmed: bool,
    pub user_display_id: Seq<char>,
    pub balance: i32,
    pub is_active: bool,
    pub role_id: i32,
    pub group_id: i32,
    pub created_date: Timestamp,
}

impl View for User {
    type V = UserView;

    open spec fn view(&self) -> UserView {
        UserView {
            id: self.id,
            name: self.name@,
            password: self.password@,
            email: self.email@,
            email_confirmed: self.email_confirmed,
            user_display_id: self.user_display_id@,
            balance: self.balance,
            is_active: self.is_active,
            role_id: self.role_id,
            group_id: self.group_id,
            created_date: self.created_date,
        }
    }
}

impl Clone for User {
    fn clone(&self) -> (r: Self)
        ensures
            r@ == self@,
    {
        User {
            id: self.id,
            name: self.name.clone(),
            password: self.password.clone(),
            email: self.email.clone(),
            email_confirmed: self.email_confirmed,
            user_display_id: self.user_display_id.clone(),
            balance: self.balance,
            is_active: self.is_active,
            role_id: self.role_id,
            group_id: self.group_id,
            created_date: self.created_date,
        }
    }
}

impl Row for User {
    open spec fn row_id(&self) -> i32 {
        self.id
    }

    fn id(&self) -> (id: i32) {
        self.id
    }
}

/// A user as the service shows it.
#[derive(Debug, Clone, PartialEq, Eq)]
pub struct UserDto {
    pub id: i32,
    pub name: String,
    pub password: String,
    pub email: String,
    pub email_confirmed: bool,
    pub user_display_id: String,
    pub balance: i32,
    pub is_active: bool,
    pub role_id: i32,
    pub group_id: i32,
    pub created_date: Timestamp,
}

impl View for UserDto {
    type V = UserView;

    open spec fn view(&self) -> UserView {
        UserView {
            id: self.id,
            name: self.name@,
            password: self.password@,
            email: self.email@,
            email_confirmed: self.email_confirmed,
            user_display_id: self.user_display_id@,
            balance: self.balance,
            is_active: self.is_active,
            role_id: self.role_id,
            group_id: self.group_id,
            created_date: self.created_date,
        }
    }
}

impl From<User> for UserDto {
    fn from(user: User) -> (dto: UserDto) {
        UserDto {
            id: user.id,
            name: user.name,
            password: user.password,
            email: user.email,
            email_confirmed: user.email_confirmed,
            user_display_id: user.user_display_id,
            balance: user.balance,
            is_active: user.is_active,
            role_id: user.role_id,
            group_id: user.group_id,
            created_date: user.created_date,
        }
    }
}

impl FromSpecImpl<User> for UserDto {
    open spec fn obeys_from_spec() -> bool {
        true
    }

    open spec fn from_spec(user: User) -> UserDto {
        UserDto {
            id: user.id,
            name: user.name,
            password: user.password,
            email: user.email,
            email_confirmed: user.email_confirmed,
            user_display_id: user.user_display_id,
            balance: user.balance,
            is_active: user.is_active,
            role_id: user.role_id,
            group_id: user.group_id,
            created_date: user.created_date,
        }
    }
}

/// A user that is to be stored: storage gives it its id.
#[derive(Debug, Clone, PartialEq, Eq)]
pub struct CreateUserDto {
    pub name: String,
    pub password: String,
    pub email: String,
    pub email_confirmed: bool,
    pub user_display_id: String,
    pub balance: i32,
    pub is_active: bool,
    pub role_id: i32,
    pub group_id: i32,
    pub created_date: Timestamp,
}

/// The mathematical value of a `CreateUserDto`.
pub struct CreateUserView {
    pub name: Seq<char>,
    pub password: Seq<char>,
    pub email: Seq<char>,
    pub email_confirmed: bool,
    pub user_display_id: Seq<char>,
    pub balance: i32,
    pub is_active: bool,
    pub role_id: i32,
    pub group_id: i32,
    pub created_date: Timestamp,
}

impl View for CreateUserDto {
    type V = CreateUserView;

    open spec fn view(&self) -> CreateUserView {
        CreateUserView {
            name: self.name@,
            password: self.password@,
            email: self.email@,
            email_confirmed: self.email_confirmed,
            user_display_id: self.user_display_id@,
            balance: self.balance,
            is_active: self.is_active,
            role_id: self.role_id,
            group_id: self.group_id,
            created_date: self.created_date,
        }
    }
}

/// A user as the list of debtors shows it.
#[derive(Debug, PartialEq, Eq)]
pub struct UserDisplayDto {
    pub id: i32,
    pub name: String,
    pub balance: i32,
}

impl Clone for UserDisplayDto {
    fn clone(&self) -> (r: Self)
        ensures
            r@ == self@,
    {
        UserDisplayDto { id: self.id, name: self.name.clone(), balance: self.balance }
    }
}

/// The mathematical value of a `UserDisplayDto`.
pub struct UserDisplayView {
    pub id: i32,
    pub name: Seq<char>,
    pub balance: i32,
}

impl View for UserDisplayDto {
    type V = UserDisplayView;

    open spec fn view(&self) -> UserDisplayView {
        UserDisplayView { id: self.id, name: self.name@, balance: self.balance }
    }
}

/// What the list of debtors shows of a user.
pub open spec fn display_of(user: UserView) -> UserDisplayView {
    UserDisplayView { id: user.id, name: user.name, balance: user.balance }
}

/// The active users of the group `group_id`, in the order of the rows.
pub open spec fn active_members(users: Seq<UserView>, group_id: i32) -> Seq<UserDisplayView> {
    users.filter(|u: UserView| u.group_id == group_id && u.is_active).map_values(
        |u: UserView| display_of(u),
    )
}

/// No user is followed by one with a smaller balance.
pub open spec fn balances_ascend(list: Seq<UserDisplayView>) -> bool {
    forall|i: int, j: int|
        0 <= i < j < list.len() ==> (#[trigger] list[i]).balance <= (#[trigger] list[j]).balance
}

impl CreateUserView {
    /// The value of `field` in the draft.
    pub open spec fn value(self, field: UniqueField) -> Seq<char> {
        match field {
            UniqueField::Email => self.email,
            UniqueField::DisplayId => self.user_display_id,
            UniqueField::Name => self.name,
        }
    }
}

/// The entries with the balance `balance`, in their order.
pub open spec fn with_balance(list: Seq<UserDisplayView>, balance: i32) -> Seq<UserDisplayView> {
    list.filter(|d: UserDisplayView| d.balance == balance)
}

/// `list` holds the entries of `members` by ascending balance, and those
/// with the same balance in the order that they have in `members`.
pub open spec fn is_debtor_list(members: Seq<UserDisplayView>, list: Seq<UserDisplayView>) -> bool {
    &&& balances_ascend(list)
    &&& forall|b: i32| #[trigger] with_balance(list, b) == with_balance(members, b)
}

/// An entry that is put behind all entries with its balance or a lower
/// one, and before all entries with a higher one, comes last among the
/// entries with its balance and leaves the others as they were.
proof fn lemma_insert_behind_equals(before: Seq<UserDisplayView>, pos: int, entry: UserDisplayView)
    requires
        0 <= pos <= before.len(),
        forall|k: int| 0 <= k < pos ==> (#[trigger] before[k]).balance <= entry.balance,
        forall|k: int| pos <= k < before.len() ==> (#[trigger] before[k]).balance > entry.balance,
    ensures
        with_balance(before.insert(pos, entry), entry.balance) == with_balance(
            before,
            entry.balance,
        ).push(entry),
        forall|b: i32|
            b != entry.balance ==> #[trigger] with_balance(before.insert(pos, entry), b)
                == with_balance(before, b),
{
    let head = before.take(pos);
    let tail = before.skip(pos);
    assert(before =~= head + tail);
    assert(before.insert(pos, entry) =~= head.push(entry) + tail);
    assert forall|b: i32| #[trigger]
        with_balance(before.insert(pos, entry), b) == if b == entry.balance {
            with_balance(before, b).push(entry)
        } else {
            with_balance(before, b)
        } by {
        let same = |d: UserDisplayView| d.balance == b;
        Seq::filter_distributes_over_add(head.push(entry), tail, same);
        Seq::filter_distributes_over_add(head, tail, same);
        head.lemma_filter_push(entry, same);
        if b == entry.balance {
            tail.lemma_all_neg_filter_empty(same);
            assert(head.filter(same) + tail.filter(same) =~= head.filter(same));
            assert(head.filter(same).push(entry) + tail.filter(same) =~= head.filter(same).push(
                entry,
            ));
        }
    }
}

/// The fields of a user that no other user may share.
#[derive(Debug, Clone, Copy, PartialEq, Eq, Structural)]
pub enum UniqueField {
    Email,
    DisplayId,
    Name,
}

impl UniqueField {
    /// The value of the field in `user`.
    pub open spec fn of(self, user: UserView) -> Seq<char> {
        match self {
            UniqueField::Email => user.email,
            UniqueField::DisplayId => user.user_display_id,
            UniqueField::Name => user.name,
        }
    }

    /// The text of the conflict that a taken value of the field gives.
    pub open spec fn conflict_text(self) -> Seq<char> {
        match self {
            UniqueField::Email => "user with this email already exists"@,
            UniqueField::DisplayId => "user with this display id already exists"@,
            UniqueField::Name => "user with this name already exists"@,
        }
    }

    /// The value of the field in `user`.
    pub fn read<'a>(&self, user: &'a User) -> (value: &'a String)
        ensures
            value@ == self.of(user@),
    {
        match self {
            UniqueField::Email => &user.email,
            UniqueField::DisplayId => &user.user_display_id,
            UniqueField::Name => &user.name,
        }
    }

    /// The conflict that a taken value of the field gives.
    pub fn conflict(&self) -> (e: ServiceError)
        ensures
            e@ == ServiceErrorView::Conflict(self.conflict_text()),
    {
        match self {
            UniqueField::Email => ServiceError::conflict("user with this email already exists"),
            UniqueField::DisplayId => ServiceError::conflict(
                "user with this display id already exists",
            ),
            UniqueField::Name => ServiceError::conflict("user with this name already exists"),
        }
    }
}

/// Some row holds `value` in `field`, not counting the rows with the id
/// `except`.
pub open spec fn value_held(
    users: Seq<UserView>,
    field: UniqueField,
    value: Seq<char>,
    except: Option<i32>,
) -> bool {
    exists|i: int|
        0 <= i < users.len() && field.of(#[trigger] users[i]) == value && except != Some(
            users[i].id,
        )
}

/// What creating the user `draft` comes to, with `users`, `roles` and
/// `groups` stored. The rules are tried in this order, and the first one
/// that is broken decides: the email, the display id and the name must be
/// new; the role and the group must be stored.
pub open spec fn create_user_verdict(
    users: Seq<UserView>,
    roles: Seq<Role>,
    groups: Seq<Group>,
    draft: CreateUserView,
) -> Result<CreateUserView, ServiceErrorView> {
    if value_held(users, UniqueField::Email, draft.email, None) {
        Err(ServiceErrorView::Conflict(UniqueField::Email.conflict_text()))
    } else if value_held(users, UniqueField::DisplayId, draft.user_display_id, None) {
        Err(ServiceErrorView::Conflict(UniqueField::DisplayId.conflict_text()))
    } else if value_held(users, UniqueField::Name, draft.name, None) {
        Err(ServiceErrorView::Conflict(UniqueField::Name.conflict_text()))
    } else if !has_id(roles, draft.role_id) {
        Err(ServiceErrorView::ReferenceNotFound(role_missing_text()))
    } else if !has_id(groups, draft.group_id) {
        Err(ServiceErrorView::ReferenceNotFound(group_missing_text()))
    } else {
        Ok(draft)
    }
}

/// The new values of a user's fields; `None` leaves a field as it is.
pub struct UserPatch {
    pub name: Option<Seq<char>>,
    pub password: Option<Seq<char>>,
    pub email: Option<Seq<char>>,
    pub email_confirmed: Option<bool>,
    pub user_display_id: Option<Seq<char>>,
    pub balance: Option<i32>,
    pub is_active: Option<bool>,
    pub role_id: Option<i32>,
    pub group_id: Option<i32>,
}

/// The text that `value` holds, if it holds one.
pub open spec fn text_of(value: Option<String>) -> Option<Seq<char>> {
    match value {
        Some(text) => Some(text@),
        None => None,
    }
}

impl UserPatch {
    /// The new value of `field`, if the patch has one.
    pub open spec fn value(self, field: UniqueField) -> Option<Seq<char>> {
        match field {
            UniqueField::Email => self.email,
            UniqueField::DisplayId => self.user_display_id,
            UniqueField::Name => self.name,
        }
    }

    /// The patch gives `field` a value that `current` does not have and
    /// that another row holds.
    pub open spec fn conflicts(self, users: Seq<UserView>, current: UserView, field: UniqueField) -> bool {
        &&& self.value(field) is Some
        &&& self.value(field)->0 != field.of(current)
        &&& value_held(users, field, self.value(field)->0, Some(current.id))
    }

    /// `current` with the fields that the patch names replaced.
    pub open spec fn over(self, current: UserView) -> UserView {
        UserView {
            id: current.id,
            name: self.name.unwrap_or(current.name),
            password: self.password.unwrap_or(current.password),
            email: self.email.unwrap_or(current.email),
            email_confirmed: self.email_confirmed.unwrap_or(current.email_confirmed),
            user_display_id: self.user_display_id.unwrap_or(current.user_display_id),
            balance: self.balance.unwrap_or(current.balance),
            is_active: self.is_active.unwrap_or(current.is_active),
            role_id: self.role_id.unwrap_or(current.role_id),
            group_id: self.group_id.unwrap_or(current.group_id),
            created_date: current.created_date,
        }
    }
}

/// What changing the user `id` by `patch` comes to, with `users`, `roles`
/// and `groups` stored: nothing where no row has the id. Else the rules
/// are tried in this order, each only for a field that the patch changes,
/// and the first one that is broken decides: the email, the display id
/// and the name must not be held by another row; the role and the group
/// must be stored. Where none is broken the answer is the row with the
/// patch laid over it.
pub open spec fn update_user_verdict(
    users: Seq<User>,
    roles: Seq<Role>,
    groups: Seq<Group>,
    id: i32,
    patch: UserPatch,
) -> Result<Option<UserView>, ServiceErrorView> {
    if !has_id(users, id) {
        Ok(None)
    } else {
        let current = users[first_with_id(users, id)]@;
        if patch.conflicts(views(users), current, UniqueField::Email) {
            Err(ServiceErrorView::Conflict(UniqueField::Email.conflict_text()))
        } else if patch.conflicts(views(users), current, UniqueField::DisplayId) {
            Err(ServiceErrorView::Conflict(UniqueField::DisplayId.conflict_text()))
        } else if patch.conflicts(views(users), current, UniqueField::Name) {
            Err(ServiceErrorView::Conflict(UniqueField::Name.conflict_text()))
        } else if patch.role_id is Some && patch.role_id->0 != current.role_id && !has_id(
            roles,
            patch.role_id->0,
        ) {
            Err(ServiceErrorView::ReferenceNotFound(role_missing_text()))
        } else if patch.group_id is Some && patch.group_id->0 != current.group_id && !has_id(
            groups,
            patch.group_id->0,
        ) {
            Err(ServiceErrorView::ReferenceNotFound(group_missing_text()))
        } else {
            Ok(Some(patch.over(current)))
        }
    }
}

/// The three conflict texts differ from one another.
pub proof fn lemma_conflict_texts_differ(a: UniqueField, b: UniqueField)
    requires
        a != b,
    ensures
        a.conflict_text() != b.conflict_text(),
{
    reveal_strlit("user with this email already exists");
    reveal_strlit("user with this display id already exists");
    reveal_strlit("user with this name already exists");
    assert(UniqueField::Email.conflict_text().len() == 35);
    assert(UniqueField::DisplayId.conflict_text().len() == 40);
    assert(UniqueField::Name.conflict_text().len() == 34);
}

/// Creating a user with a value in `field` that a stored user has there
/// gives a conflict, and so no user to store.
pub proof fn lemma_create_user_conflicts(
    users: Seq<UserView>,
    roles: Seq<Role>,
    groups: Seq<Group>,
    draft: CreateUserView,
    field: UniqueField,
)
    requires
        value_held(users, field, draft.value(field), None),
    ensures
        create_user_verdict(users, roles, groups, draft) is Err,
        create_user_verdict(users, roles, groups, draft)->Err_0 is Conflict,
{
}

/// Creating a user succeeds exactly if no rule is broken, and then gives
/// the draft to store as it came.
pub proof fn lemma_create_user_succeeds(
    users: Seq<UserView>,
    roles: Seq<Role>,
    groups: Seq<Group>,
    draft: CreateUserView,
)
    ensures
        create_user_verdict(users, roles, groups, draft) is Ok <==> {
            &&& !value_held(users, UniqueField::Email, draft.email, None)
            &&& !value_held(users, UniqueField::DisplayId, draft.user_display_id, None)
            &&& !value_held(users, UniqueField::Name, draft.name, None)
            &&& has_id(roles, draft.role_id)
            &&& has_id(groups, draft.group_id)
        },
        create_user_verdict(users, roles, groups, draft) is Ok ==> create_user_verdict(
            users,
            roles,
            groups,
            draft,
        )->Ok_0 == draft,
{
}

/// A patch that leaves `field` alone, or gives it the value that the user
/// has, never gives the conflict of that field.
pub proof fn lemma_update_to_own_value(
    users: Seq<User>,
    roles: Seq<Role>,
    groups: Seq<Group>,
    id: i32,
    patch: UserPatch,
    field: UniqueField,
)
    requires
        has_id(users, id),
        patch.value(field) is None || patch.value(field)->0 == field.of(
            users[first_with_id(users, id)]@,
        ),
    ensures
        update_user_verdict(users, roles, groups, id, patch) != Err::<
            Option<UserView>,
            ServiceErrorView,
        >(ServiceErrorView::Conflict(field.conflict_text())),
{
    lemma_conflict_texts_differ(UniqueField::Email, UniqueField::DisplayId);
    lemma_conflict_texts_differ(UniqueField::Email, UniqueField::Name);
    lemma_conflict_texts_differ(UniqueField::DisplayId, UniqueField::Name);
}

/// A patch that gives `field` a value that the user does not have and
/// that the row at `other`, a row with another id, has there gives a
/// conflict.
pub proof fn lemma_update_to_value_of_other(
    users: Seq<User>,
    roles: Seq<Role>,
    groups: Seq<Group>,
    id: i32,
    patch: UserPatch,
    field: UniqueField,
    other: int,
)
    requires
        has_id(users, id),
        patch.value(field) is Some,
        patch.value(field)->0 != field.of(users[first_with_id(users, id)]@),
        0 <= other < users.len(),
        users[other].id != id,
        field.of(users[other]@) == patch.value(field)->0,
    ensures
        update_user_verdict(users, roles, groups, id, patch) is Err,
        update_user_verdict(users, roles, groups, id, patch)->Err_0 is Conflict,
{
    crate::model::lemma_first_with_id(users, id);
    assert(field.of(views(users)[other]) == patch.value(field)->0);
    assert(patch.conflicts(views(users), users[first_with_id(users, id)]@, field));
}

/// Changing a user whose id no stored user has finds nothing, and is no
/// error.
pub proof fn lemma_update_missing_user(
    users: Seq<User>,
    roles: Seq<Role>,
    groups: Seq<Group>,
    id: i32,
    patch: UserPatch,
)
    requires
        !has_id(users, id),
    ensures
        update_user_verdict(users, roles, groups, id, patch) == Ok::<
            Option<UserView>,
            ServiceErrorView,
        >(None),
{
}

/// Whether a value is held looks only at the rows that hold it: the
/// answer is the same after any other rows are left out.
pub proof fn lemma_value_held_reads(
    users: Seq<User>,
    field: UniqueField,
    value: Seq<char>,
    except: Option<i32>,
    kept: spec_fn(User) -> bool,
)
    requires
        forall|u: User| field.of(u@) == value ==> #[trigger] kept(u),
    ensures
        value_held(views(users.filter(kept)), field, value, except) == value_held(
            views(users),
            field,
            value,
            except,
        ),
{
    let f = users.filter(kept);
    lemma_filter_keeps_witnesses(
        users,
        kept,
        |u: User| field.of(u@) == value && except != Some(u.id),
    );
    if value_held(views(users), field, value, except) {
        let i = choose|i: int|
            0 <= i < views(users).len() && field.of(#[trigger] views(users)[i]) == value && except
                != Some(views(users)[i].id);
        assert(field.of(users[i]@) == value && except != Some(users[i].id));
        let j = choose|j: int|
            0 <= j < f.len() && field.of((#[trigger] f[j])@) == value && except != Some(f[j].id);
        assert(field.of(views(f)[j]) == value);
    }
    if value_held(views(f), field, value, except) {
        let j = choose|j: int|
            0 <= j < views(f).len() && field.of(#[trigger] views(f)[j]) == value && except != Some(
                views(f)[j].id,
            );
        assert(field.of(f[j]@) == value && except != Some(f[j].id));
        let i = choose|i: int|
            0 <= i < users.len() && field.of((#[trigger] users[i])@) == value && except != Some(
                users[i].id,
            );
        assert(field.of(views(users)[i]) == value);
    }
}

/// Creating a user looks only at the users that hold its email, its
/// display id or its name, at the roles with its role's id and at the
/// groups with its group's id: the outcome is the same after any other
/// rows are left out.
pub proof fn lemma_create_user_reads(
    users: Seq<User>,
    roles: Seq<Role>,
    groups: Seq<Group>,
    draft: CreateUserView,
    kept_users: spec_fn(User) -> bool,
    kept_roles: spec_fn(Role) -> bool,
    kept_groups: spec_fn(Group) -> bool,
)
    requires
        forall|u: User|
            u@.email == draft.email || u@.user_display_id == draft.user_display_id || u@.name
                == draft.name ==> #[trigger] kept_users(u),
        forall|r: Role| r.id == draft.role_id ==> #[trigger] kept_roles(r),
        forall|g: Group| g.id == draft.group_id ==> #[trigger] kept_groups(g),
    ensures
        create_user_verdict(
            views(users.filter(kept_users)),
            roles.filter(kept_roles),
            groups.filter(kept_groups),
            draft,
        ) == create_user_verdict(views(users), roles, groups, draft),
{
    lemma_value_held_reads(users, UniqueField::Email, draft.email, None, kept_users);
    lemma_value_held_reads(users, UniqueField::DisplayId, draft.user_display_id, None, kept_users);
    lemma_value_held_reads(users, UniqueField::Name, draft.name, None, kept_users);
    lemma_filter_keeps_first_with_id(roles, draft.role_id, kept_roles);
    lemma_filter_keeps_first_with_id(groups, draft.group_id, kept_groups);
}

/// Changing the user `id` looks only at the user with that id, at the
/// users that hold a value that the patch gives, and at the roles and
/// groups with an id that the patch gives: the outcome is the same after
/// any other rows are left out.
pub proof fn lemma_update_user_reads(
    users: Seq<User>,
    roles: Seq<Role>,
    groups: Seq<Group>,
    id: i32,
    patch: UserPatch,
    kept_users: spec_fn(User) -> bool,
    kept_roles: spec_fn(Role) -> bool,
    kept_groups: spec_fn(Group) -> bool,
)
    requires
        forall|u: User|
            u.id == id || patch.email == Some(u@.email) || patch.user_display_id == Some(
                u@.user_display_id,
            ) || patch.name == Some(u@.name) ==> #[trigger] kept_users(u),
        forall|r: Role| patch.role_id == Some(r.id) ==> #[trigger] kept_roles(r),
        forall|g: Group| patch.group_id == Some(g.id) ==> #[trigger] kept_groups(g),
    ensures
        update_user_verdict(
            users.filter(kept_users),
            roles.filter(kept_roles),
            groups.filter(kept_groups),
            id,
            patch,
        ) == update_user_verdict(users, roles, groups, id, patch),
{
    lemma_filter_keeps_first_with_id(users, id, kept_users);
    if has_id(users, id) {
        let current = users[first_with_id(users, id)]@;
        if patch.email is Some {
            lemma_value_held_reads(
                users,
                UniqueField::Email,
                patch.email->0,
                Some(current.id),
                kept_users,
            );
        }
        if patch.user_display_id is Some {
            lemma_value_held_reads(
                users,
                UniqueField::DisplayId,
                patch.user_display_id->0,
                Some(current.id),
                kept_users,
            );
        }
        if patch.name is Some {
            lemma_value_held_reads(
                users,
                UniqueField::Name,
                patch.name->0,
                Some(current.id),
                kept_users,
            );
        }
        if patch.role_id is Some {
            lemma_filter_keeps_first_with_id(roles, patch.role_id->0, kept_roles);
        }
        if patch.group_id is Some {
            lemma_filter_keeps_first_with_id(groups, patch.group_id->0, kept_groups);
        }
    }
}

pub struct UserService;

impl UserService {
    /// Whether some row of `users` holds `value` in `field`, not counting
    /// the rows with the id `except`.
    pub fn held(users: &Vec<User>, field: UniqueField, value: &String, except: Option<i32>) -> (held:
        bool)
        ensures
            held == value_held(views(users@), field, value@, except),
    {
        let mut i: usize = 0;
        while i < users.len()
            invariant
                i <= users.len(),
                forall|j: int|
                    0 <= j < i ==> !(field.of(#[trigger] views(users@)[j]) == value@ && except
                        != Some(views(users@)[j].id)),
            decreases users.len() - i,
        {
            let other = match except {
                Some(own) => users[i].id != own,
                None => true,
            };
            if other && *field.read(&users[i]) == *value {
                assert(field.of(views(users@)[i as int]) == value@);
                return true;
            }
            i += 1;
        }
        false
    }

    /// The active users of the group `group_id` as the list of debtors
    /// shows them, in the order of the rows.
    pub fn active_members_of(group_id: i32, users: &Vec<User>) -> (members: Vec<UserDisplayDto>)
        ensures
            views(members@) == active_members(views(users@), group_id),
    {
        let mut members: Vec<UserDisplayDto> = Vec::new();
        let mut i: usize = 0;
        let ghost member = |u: UserView| u.group_id == group_id && u.is_active;
        let ghost shown = |u: UserView| display_of(u);
        assert(views(users@).take(0) =~= Seq::<UserView>::empty());
        assert(views(members@) =~= active_members(views(users@).take(0), group_id));
        while i < users.len()
            invariant
                i <= users.len(),
                member == (|u: UserView| u.group_id == group_id && u.is_active),
                shown == (|u: UserView| display_of(u)),
                views(members@) == active_members(views(users@).take(i as int), group_id),
            decreases users.len() - i,
        {
            let user = &users[i];
            let ghost prefix = views(users@).take(i as int);
            proof {
                assert(views(users@).take(i + 1) =~= prefix.push(user@));
                prefix.lemma_filter_push(user@, member);
                assert(prefix.filter(member).push(user@).map_values(shown) =~= prefix.filter(
                    member,
                ).map_values(shown).push(shown(user@)));
            }
            if user.group_id == group_id && user.is_active {
                let entry = UserDisplayDto {
                    id: user.id,
                    name: user.name.clone(),
                    balance: user.balance,
                };
                proof {
                    lemma_views_push(members@, entry);
                }
                members.push(entry);
            }
            i += 1;
        }
        assert(views(users@).take(users.len() as int) =~= views(users@));
        members
    }

    /// The entries by ascending balance; entries with the same balance
    /// keep their order.
    pub fn order_by_balance(entries: &Vec<UserDisplayDto>) -> (list: Vec<UserDisplayDto>)
        ensures
            is_debtor_list(views(entries@), views(list@)),
            views(list@).to_multiset() == views(entries@).to_multiset(),
    {
        let mut list: Vec<UserDisplayDto> = Vec::new();
        let mut i: usize = 0;
        assert(views(entries@).take(0) =~= Seq::<UserDisplayView>::empty());
        assert(views(list@) =~= views(entries@).take(0));
        while i < entries.len()
            invariant
                i <= entries.len(),
                is_debtor_list(views(entries@).take(i as int), views(list@)),
                views(list@).to_multiset() == views(entries@).take(i as int).to_multiset(),
            decreases entries.len() - i,
        {
            let entry = entries[i].clone();
            let ghost done = views(entries@).take(i as int);
            let mut pos: usize = 0;
            while pos < list.len() && list[pos].balance <= entry.balance
                invariant
                    pos <= list.len(),
                    forall|k: int|
                        0 <= k < pos ==> (#[trigger] views(list@)[k]).balance <= entry.balance,
                decreases list.len() - pos,
            {
                pos += 1;
            }
            let ghost before = views(list@);
            let ghost shown_entry = entry@;
            proof {
                assert(views(entries@).take(i + 1) =~= done.push(shown_entry));
                assert(pos < list.len() ==> before[pos as int].balance > entry.balance);
                assert forall|k: int| pos <= k < before.len() implies (#[trigger] before[k]).balance
                    > entry.balance by {
                    if k > pos {
                        assert(before[pos as int].balance <= before[k].balance);
                    }
                }
                lemma_insert_behind_equals(before, pos as int, shown_entry);
                assert forall|b: i32| #[trigger]
                    with_balance(done.push(shown_entry), b) == if b == entry.balance {
                        with_balance(done, b).push(shown_entry)
                    } else {
                        with_balance(done, b)
                    } by {
                    done.lemma_filter_push(shown_entry, |d: UserDisplayView| d.balance == b);
                }
            }
            list.insert(pos, entry);
            proof {
                let after = views(list@);
                assert(after =~= before.insert(pos as int, shown_entry));
                vstd::seq_lib::to_multiset_insert(before, pos as int, shown_entry);
                vstd::seq_lib::to_multiset_build(done, shown_entry);
                assert forall|a: int, b: int| 0 <= a < b < after.len() implies (
                #[trigger] after[a]).balance <= (#[trigger] after[b]).balance by {
                    if b < pos {
                        assert(after[a] == before[a] && after[b] == before[b]);
                    } else if b == pos {
                        assert(after[a] == before[a]);
                    } else if a < pos {
                        assert(after[a] == before[a] && after[b] == before[b - 1]);
                    } else if a == pos {
                        assert(after[b] == before[b - 1]);
                    } else {
                        assert(after[a] == before[a - 1] && after[b] == before[b - 1]);
                    }
                }
            }
            i += 1;
        }
        assert(views(entries@).take(entries.len() as int) =~= views(entries@));
        list
    }

    /// The active users of the group `group_id`, the one with the lowest
    /// balance first; users with the same balance keep the order of the
    /// rows.
    pub fn get_user_indebt(group_id: i32, users: &Vec<User>) -> (list: Vec<UserDisplayDto>)
        ensures
            is_debtor_list(active_members(views(users@), group_id), views(list@)),
            views(list@).to_multiset() == active_members(views(users@), group_id).to_multiset(),
    {
        let members = Self::active_members_of(group_id, users);
        Self::order_by_balance(&members)
    }

    /// Decides on a new user: the error of the first rule that is broken,
    /// else the user to store. Looks at the users with the new user's
    /// email, display id or name, at its role and at its group.
    pub fn create_user(
        users: &Vec<User>,
        roles: &Vec<Role>,
        groups: &Vec<Group>,
        name: String,
        password: String,
        email: String,
        email_confirmed: bool,
        user_display_id: String,
        balance: i32,
        is_active: bool,
        role_id: i32,
        group_id: i32,
        created_date: Timestamp,
    ) -> (r: Result<CreateUserDto, ServiceError>)
        ensures
            outcome(r) == create_user_verdict(
                views(users@),
                roles@,
                groups@,
                (CreateUserView {
                    name: name@,
                    password: password@,
                    email: email@,
                    email_confirmed,
                    user_display_id: user_display_id@,
                    balance,
                    is_active,
                    role_id,
                    group_id,
                    created_date,
                }),
            ),
    {
        if Self::held(users, UniqueField::Email, &email, None) {
            return Err(UniqueField::Email.conflict());
        }
        if Self::held(users, UniqueField::DisplayId, &user_display_id, None) {
            return Err(UniqueField::DisplayId.conflict());
        }
        if Self::held(users, UniqueField::Name, &name, None) {
            return Err(UniqueField::Name.conflict());
        }
        if !contains_id(roles, role_id) {
            return Err(ServiceError::reference_not_found("role does not exist"));
        }
        if !contains_id(groups, group_id) {
            return Err(ServiceError::reference_not_found("group does not exist"));
        }
        Ok(
            CreateUserDto {
                name,
                password,
                email,
                email_confirmed,
                user_display_id,
                balance,
                is_active,
                role_id,
                group_id,
                created_date,
            },
        )
    }

    /// Whether `value` is a new value for `field` of `current` that
    /// another row holds.
    fn taken_by_other(
        users: &Vec<User>,
        current: &User,
        field: UniqueField,
        value: &Option<String>,
    ) -> (taken: bool)
        ensures
            taken == (text_of(*value) is Some && text_of(*value)->0 != field.of(current@)
                && value_held(views(users@), field, text_of(*value)->0, Some(current.id))),
    {
        match value {
            Some(text) => *text != *field.read(current) && Self::held(
                users,
                field,
                text,
                Some(current.id),
            ),
            None => false,
        }
    }

    /// `new` where it holds a text, else a copy of `current`.
    fn text_or(new: Option<String>, current: &String) -> (text: String)
        ensures
            text@ == text_of(new).unwrap_or(current@),
    {
        match new {
            Some(text) => text,
            None => current.clone(),
        }
    }

    /// Decides on changing the user `id`: `None` where no user has the id,
    /// the error of the first rule that is broken, else the row to store
    /// in place of the old one. Looks at the user `id`, at the users with
    /// a given email, display id or name, and at a given role and group.
    pub fn update_user(
        users: &Vec<User>,
        roles: &Vec<Role>,
        groups: &Vec<Group>,
        id: i32,
        name: Option<String>,
        password: Option<String>,
        email: Option<String>,
        email_confirmed: Option<bool>,
        user_display_id: Option<String>,
        balance: Option<i32>,
        is_active: Option<bool>,
        role_id: Option<i32>,
        group_id: Option<i32>,
    ) -> (r: Result<Option<User>, ServiceError>)
        ensures
            optional_outcome(r) == update_user_verdict(
                users@,
                roles@,
                groups@,
                id,
                (UserPatch {
                    name: text_of(name),
                    password: text_of(password),
                    email: text_of(email),
                    email_confirmed,
                    user_display_id: text_of(user_display_id),
                    balance,
                    is_active,
                    role_id,
                    group_id,
                }),
            ),
    {
        let at = position_of_id(users, id);
        if at >= users.len() {
            return Ok(None);
        }
        let current = &users[at];
        if Self::taken_by_other(users, current, UniqueField::Email, &email) {
            return Err(UniqueField::Email.conflict());
        }
        if Self::taken_by_other(users, current, UniqueField::DisplayId, &user_display_id) {
            return Err(UniqueField::DisplayId.conflict());
        }
        if Self::taken_by_other(users, current, UniqueField::Name, &name) {
            return Err(UniqueField::Name.conflict());
        }
        if let Some(role) = role_id {
            if role != current.role_id && !contains_id(roles, role) {
                return Err(ServiceError::reference_not_found("role does not exist"));
            }
        }
        if let Some(group) = group_id {
            if group != current.group_id && !contains_id(groups, group) {
                return Err(ServiceError::reference_not_found("group does not exist"));
            }
        }
        Ok(
            Some(
                User {
                    id: current.id,
                    name: Self::text_or(name, &current.name),
                    password: Self::text_or(password, &current.password),
                    email: Self::text_or(email, &current.email),
                    email_confirmed: email_confirmed.unwrap_or(current.email_confirmed),
                    user_display_id: Self::text_or(user_display_id, &current.user_display_id),
                    balance: balance.unwrap_or(current.balance),
                    is_active: is_active.unwrap_or(current.is_active),
                    role_id: role_id.unwrap_or(current.role_id),
                    group_id: group_id.unwrap_or(current.group_id),
                    created_date: current.created_date,
                },
            ),
        )
    }
}

} // verus!
