//! The log of what users did in a group.

use vstd::prelude::*;
use vstd::std_specs::convert::FromSpecImpl;
use crate::calendar::Timestamp;
use crate::model::Row;

verus! {

/// A stored entry of the log.
#[derive(Debug, Clone, PartialEq, Eq)]
pub struct Model {
    pub id: i32,
    pub transaction_type: String,
    pub description: String,
    pub date: Timestamp,
    pub user_id: i32,
    pub group_id: i32,
}

impl Row for Model {
    open spec fn row_id(&self) -> i32 {
        self.id
    }

    fn id(&self) -> (id: i32) {
        self.id
    }
}

/// An entry of the log as the service shows it.
#[derive(Debug, Clone, PartialEq, Eq)]
pub struct SystemLogDto {
    pub id: i32,
    pub transaction_type: String,
    pub description: String,
    pub date: Timestamp,
    pub user_id: i32,
    pub group_id: i32,
}

/// An entry of the log that is to be stored: storage gives it its id.
#[derive(Debug, Clone, PartialEq, Eq)]
pub struct CreateSystemLogDto {
    pub transaction_type: String,
    pub description: String,
    pub date: Timestamp,
    pub user_id: i32,
    pub group_id: i32,
}

impl From<Model> for SystemLogDto {
    fn from(entry: Model) -> (dto: SystemLogDto) {
        SystemLogDto {
            id: entry.id,
            transaction_type: entry.transaction_type,
            description: entry.description,
            date: entry.date,
            user_id: entry.user_id,
            group_id: entry.group_id,
        }
    }
}

impl FromSpecImpl<Model> for SystemLogDto {
    open spec fn obeys_from_spec() -> bool {
        true
    }

    open spec fn from_spec(entry: Model) -> SystemLogDto {
        SystemLogDto {
            id: entry.id,
            transaction_type: entry.transaction_type,
            description: entry.description,
            date: entry.date,
            user_id: entry.user_id,
            group_id: entry.group_id,
        }
    }
}

} // verus!
