//! The customers of an order: an order may have several customers, and a
//! customer several orders.

use vstd::prelude::*;
use vstd::std_specs::convert::FromSpecImpl;

verus! {

/// A stored row that ties a customer to an order.
#[derive(Debug, Clone, Copy, PartialEq, Eq, Structural)]
pub struct Model {
    pub order_id: i32,
    pub customer_id: i32,
}

/// A customer of an order as the service shows it.
#[derive(Debug, Clone, Copy, PartialEq, Eq, Structural)]
pub struct OrderCustomerDto {
    pub order_id: i32,
    pub customer_id: i32,
}

/// A customer that is to be added to an order.
#[derive(Debug, Clone, Copy, PartialEq, Eq, Structural)]
pub struct CreateOrderCustomerDto {
    pub order_id: i32,
    pub customer_id: i32,
}

impl From<Model> for OrderCustomerDto {
    fn from(link: Model) -> (dto: OrderCustomerDto) {
        OrderCustomerDto {
            order_id: link.order_id,
            customer_id: link.customer_id,
        }
    }
}

impl FromSpecImpl<Model> for OrderCustomerDto {
    open spec fn obeys_from_spec() -> bool {
        true
    }

    open spec fn from_spec(link: Model) -> OrderCustomerDto {
        OrderCustomerDto {
            order_id: link.order_id,
            customer_id: link.customer_id,
        }
    }
}

} // verus!
