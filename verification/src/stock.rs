//! Stock: one unit of a product that can be bought and consumed.

use vstd::prelude::*;
use vstd::std_specs::convert::FromSpecImpl;
use crate::model::Row;

verus! {

/// A stored unit of a product.
#[derive(Debug, Clone, Copy, PartialEq, Eq, Structural)]
pub struct Stock {
    pub id: i32,
    pub price: i64,
    pub consumed: bool,
    pub product_id: i32,
}

impl Row for Stock {
    open spec fn row_id(&self) -> i32 {
        self.id
    }

    fn id(&self) -> (id: i32) {
        self.id
    }
}

/// A unit of a product as the service shows it.
#[derive(Debug, Clone, Copy, PartialEq, Eq, Structural)]
pub struct StockDto {
    pub id: i32,
    pub price: i64,
    pub consumed: bool,
    pub product_id: i32,
}

/// A unit of a product that is to be stored: storage gives it its id.
#[derive(Debug, Clone, Copy, PartialEq, Eq, Structural)]
pub struct CreateStockDto {
    pub price: i64,
    pub consumed: bool,
    pub product_id: i32,
}

impl From<Stock> for StockDto {
    fn from(stock: Stock) -> (dto: StockDto) {
        StockDto {
            id: stock.id,
            price: stock.price,
            consumed: stock.consumed,
            product_id: stock.product_id,
        }
    }
}

impl FromSpecImpl<Stock> for StockDto {
    open spec fn obeys_from_spec() -> bool {
        true
    }

    open spec fn from_spec(stock: Stock) -> StockDto {
        StockDto {
            id: stock.id,
            price: stock.price,
            consumed: stock.consumed,
            product_id: stock.product_id,
        }
    }
}

} // verus!
