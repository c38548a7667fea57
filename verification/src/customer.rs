//! Customers: the users who order from the group.

use vstd::prelude::*;
use vstd::std_specs::convert::FromSpecImpl;
use crate::model::Row;

verus! {

/// A stored customer.
#[derive(Debug, Clone, Copy, PartialEq, Eq, Structural)]
pub struct Model {
    pub id: i32,
    pub user_id: i32,
    pub balance: i32,
}

impl Row for Model {
    open spec fn row_id(&self) -> i32 {
        self.id
    }

    fn id(&self) -> (id: i32) {
        self.id
    }
}

/// A customer as the service shows it.
#[derive(Debug, Clone, Copy, PartialEq, Eq, Structural)]
pub struct CustomerDto {
    pub id: i32,
    pub user_id: i32,
    pub balance: i32,
}

/// A customer that is to be stored: storage gives it its id.
#[derive(Debug, Clone, Copy, PartialEq, Eq, Structural)]
pub struct CreateCustomerDto {
    pub user_id: i32,
    pub balance: i32,
}

impl From<Model> for CustomerDto {
    fn from(customer: Model) -> (dto: CustomerDto) {
        CustomerDto {
            id: customer.id,
            user_id: customer.user_id,
            balance: customer.balance,
        }
    }
}

impl FromSpecImpl<Model> for CustomerDto {
    open spec fn obeys_from_spec() -> bool {
        true
    }

    open spec fn from_spec(customer: Model) -> CustomerDto {
        CustomerDto {
            id: customer.id,
            user_id: customer.user_id,
            balance: customer.balance,
        }
    }
}

} // verus!
