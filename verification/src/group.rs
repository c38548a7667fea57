//! Groups: the unit to which users, products, invoices and orders belong.

use vstd::prelude::*;
use vstd::std_specs::convert::FromSpecImpl;
use crate::model::{contains_id, has_id, Row};

verus! {

/// A stored group.
#[derive(Debug, Clone, PartialEq, Eq)]
pub struct Group {
    pub id: i32,
    pub name: String,
    pub is_public: bool,
}

impl Row for Group {
    open spec fn row_id(&self) -> i32 {
        self.id
    }

    fn id(&self) -> (id: i32) {
        self.id
    }
}

/// A group as the service shows it.
#[derive(Debug, Clone, PartialEq, Eq)]
pub struct GroupDto {
    pub id: i32,
    pub name: String,
    pub is_public: bool,
}

/// A group that is to be stored: storage gives it its id.
#[derive(Debug, Clone, PartialEq, Eq)]
pub struct CreateGroupDto {
    pub name: String,
    pub is_public: bool,
}

impl From<Group> for GroupDto {
    fn from(group: Group) -> (dto: GroupDto) {
        GroupDto { id: group.id, name: group.name, is_public: group.is_public }
    }
}

impl FromSpecImpl<Group> for GroupDto {
    open spec fn obeys_from_spec() -> bool {
        true
    }

    open spec fn from_spec(group: Group) -> GroupDto {
        GroupDto { id: group.id, name: group.name, is_public: group.is_public }
    }
}

/// The text of the error that a group that is not stored gives.
pub open spec fn group_missing_text() -> Seq<char> {
    "group does not exist"@
}

pub struct GroupService;

impl GroupService {
    /// Whether a group with the id `id` is stored.
    pub fn exists_by_id(groups: &Vec<Group>, id: i32) -> (found: bool)
        ensures
            found == has_id(groups@, id),
    {
        contains_id(groups, id)
    }
}

} // verus!
