//! Sessions: which user works in which group.

use vstd::prelude::*;
use vstd::std_specs::convert::FromSpecImpl;
use crate::model::Row;

verus! {

/// A stored session.
#[derive(Debug, Clone, Copy, PartialEq, Eq, Structural)]
pub struct ActiveSession {
    pub id: i32,
    pub user_id: i32,
    pub group_id: i32,
}

impl Row for ActiveSession {
    open spec fn row_id(&self) -> i32 {
        self.id
    }

    fn id(&self) -> (id: i32) {
        self.id
    }
}

/// A session as the service shows it.
#[derive(Debug, Clone, Copy, PartialEq, Eq, Structural)]
pub struct ActiveSessionDto {
    pub id: i32,
    pub user_id: i32,
    pub group_id: i32,
}

/// A session that is to be stored: storage gives it its id.
#[derive(Debug, Clone, Copy, PartialEq, Eq, Structural)]
pub struct CreateActiveSessionDto {
    pub user_id: i32,
    pub group_id: i32,
}

impl From<ActiveSession> for ActiveSessionDto {
    fn from(session: ActiveSession) -> (dto: ActiveSessionDto) {
        ActiveSessionDto {
            id: session.id,
            user_id: session.user_id,
            group_id: session.group_id,
        }
    }
}

impl FromSpecImpl<ActiveSession> for ActiveSessionDto {
    open spec fn obeys_from_spec() -> bool {
        true
    }

    open spec fn from_spec(session: ActiveSession) -> ActiveSessionDto {
        ActiveSessionDto {
            id: session.id,
            user_id: session.user_id,
            group_id: session.group_id,
        }
    }
}

} // verus!
