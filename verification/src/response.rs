//! The envelope in which every answer leaves the service.

use vstd::prelude::*;

verus! {

/// An answer: a status, the payload, and a message that is empty unless
/// something went wrong.
#[derive(Debug, Clone, PartialEq, Eq)]
pub struct ApiResponse<T> {
    pub status: u16,
    pub data: T,
    pub error_message: String,
}

impl<T> ApiResponse<T> {
    /// An envelope with the given status, payload and message.
    pub fn new(status: u16, data: T, error_message: &str) -> (r: Self)
        ensures
            r.status == status,
            r.data == data,
            r.error_message@ == error_message@,
    {
        Self { status, data, error_message: error_message.to_string() }
    }
}

} // verus!
