//! Suppliers: the users from whom the group buys.

use vstd::prelude::*;
use crate::model::{contains_id, has_id, Row};

verus! {

/// A stored supplier.
#[derive(Debug, Clone, Copy, PartialEq, Eq, Structural)]
pub struct Supplier {
    pub id: i32,
    pub balance: i32,
    pub user_id: i32,
}

impl Row for Supplier {
    open spec fn row_id(&self) -> i32 {
        self.id
    }

    fn id(&self) -> (id: i32) {
        self.id
    }
}

pub struct SupplierService;

impl SupplierService {
    /// Whether a supplier with the id `id` is stored.
    pub fn exists_by_id(suppliers: &Vec<Supplier>, id: i32) -> (found: bool)
        ensures
            found == has_id(suppliers@, id),
    {
        contains_id(suppliers, id)
    }
}

} // verus!
