//! Orders: what the customers of a group ask for, and the units of stock
//! that fill an order.

use vstd::prelude::*;
use vstd::std_specs::convert::FromSpecImpl;
use crate::calendar::Timestamp;
use crate::model::Row;

verus! {

/// A stored order. An order is never removed: it is marked as deleted, with
/// the user who did so.
#[derive(Debug, Clone, Copy, PartialEq, Eq, Structural)]
pub struct Order {
    pub id: i32,
    pub is_deleted: bool,
    pub deleted_by: i32,
    pub created_date: Timestamp,
    pub last_modification_date: Timestamp,
    pub group_id: i32,
}

impl Row for Order {
    open spec fn row_id(&self) -> i32 {
        self.id
    }

    fn id(&self) -> (id: i32) {
        self.id
    }
}

/// An order as the service shows it.
#[derive(Debug, Clone, Copy, PartialEq, Eq, Structural)]
pub struct OrderDto {
    pub id: i32,
    pub is_deleted: bool,
    pub deleted_by: i32,
    pub created_date: Timestamp,
    pub last_modification_date: Timestamp,
    pub group_id: i32,
}

/// An order that is to be stored: storage gives it its id.
#[derive(Debug, Clone, Copy, PartialEq, Eq, Structural)]
pub struct CreateOrderDto {
    pub is_deleted: bool,
    pub deleted_by: i32,
    pub created_date: Timestamp,
    pub last_modification_date: Timestamp,
    pub group_id: i32,
}

impl From<Order> for OrderDto {
    fn from(order: Order) -> (dto: OrderDto) {
        OrderDto {
            id: order.id,
            is_deleted: order.is_deleted,
            deleted_by: order.deleted_by,
            created_date: order.created_date,
            last_modification_date: order.last_modification_date,
            group_id: order.group_id,
        }
    }
}

impl FromSpecImpl<Order> for OrderDto {
    open spec fn obeys_from_spec() -> bool {
        true
    }

    open spec fn from_spec(order: Order) -> OrderDto {
        OrderDto {
            id: order.id,
            is_deleted: order.is_deleted,
            deleted_by: order.deleted_by,
            created_date: order.created_date,
            last_modification_date: order.last_modification_date,
            group_id: order.group_id,
        }
    }
}

/// A stored row that ties a unit of stock to an order.
#[derive(Debug, Clone, Copy, PartialEq, Eq, Structural)]
pub struct OrderDetails {
    pub id: i32,
    pub order_id: i32,
    pub stock_id: i32,
}

impl Row for OrderDetails {
    open spec fn row_id(&self) -> i32 {
        self.id
    }

    fn id(&self) -> (id: i32) {
        self.id
    }
}

/// A unit of stock of an order as the service shows it.
#[derive(Debug, Clone, Copy, PartialEq, Eq, Structural)]
pub struct OrderDetailsDto {
    pub id: i32,
    pub order_id: i32,
    pub stock_id: i32,
}

/// A unit of stock that is to be added to an order.
#[derive(Debug, Clone, Copy, PartialEq, Eq, Structural)]
pub struct CreateOrderDetailsDto {
    pub order_id: i32,
    pub stock_id: i32,
}

impl From<OrderDetails> for OrderDetailsDto {
    fn from(details: OrderDetails) -> (dto: OrderDetailsDto) {
        OrderDetailsDto {
            id: details.id,
            order_id: details.order_id,
            stock_id: details.stock_id,
        }
    }
}

impl FromSpecImpl<OrderDetails> for OrderDetailsDto {
    open spec fn obeys_from_spec() -> bool {
        true
    }

    open spec fn from_spec(details: OrderDetails) -> OrderDetailsDto {
        OrderDetailsDto {
            id: details.id,
            order_id: details.order_id,
            stock_id: details.stock_id,
        }
    }
}

} // verus!
