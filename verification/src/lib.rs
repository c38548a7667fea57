//! Validation rules and report aggregation for a small canteen's
//! users, roles, meals and invoices.
//!
//! The services do not reach storage themselves. Each function works on
//! rows that the caller has read, and answers with the rows to write or
//! with the reason why nothing may be written. A function's comment says
//! which rows it looks at; the caller may hand it more, up to the whole
//! table, and the answer stays the same.

pub mod calendar;
pub mod customer;
pub mod error;
pub mod group;
pub mod identity;
pub mod invoice;
pub mod invoice_details;
pub mod invoice_report;
pub mod meal;
pub mod model;
pub mod order;
pub mod order_customer;
pub mod product;
pub mod query;
pub mod response;
pub mod role;
pub mod session;
pub mod sorting;
pub mod stock;
pub mod supplier;
pub mod system_log;
pub mod text;
pub mod user;
