//! The errors that a service call can answer with.

use vstd::prelude::*;

verus! {

/// Why a service call wrote nothing.
#[derive(Debug, Clone, PartialEq, Eq)]
pub enum ServiceError {
    /// No row has the given id.
    NotFound(String),
    /// A value that must be unique is already held by another row.
    Conflict(String),
    /// A row that the input refers to does not exist.
    ReferenceNotFound(String),
    /// The storage layer failed; the message is its own.
    StoreError(String),
}

/// The mathematical value of a `ServiceError`.
pub enum ServiceErrorView {
    NotFound(Seq<char>),
    Conflict(Seq<char>),
    ReferenceNotFound(Seq<char>),
    StoreError(Seq<char>),
}

impl View for ServiceError {
    type V = ServiceErrorView;

    open spec fn view(&self) -> ServiceErrorView {
        match self {
            ServiceError::NotFound(m) => ServiceErrorView::NotFound(m@),
            ServiceError::Conflict(m) => ServiceErrorView::Conflict(m@),
            ServiceError::ReferenceNotFound(m) => ServiceErrorView::ReferenceNotFound(m@),
            ServiceError::StoreError(m) => ServiceErrorView::StoreError(m@),
        }
    }
}

/// The mathematical value of what a service call answered.
pub open spec fn outcome<T: View>(r: Result<T, ServiceError>) -> Result<T::V, ServiceErrorView> {
    match r {
        Ok(v) => Ok(v@),
        Err(e) => Err(e@),
    }
}

/// The mathematical value of what a service call answered that may find
/// nothing to work on.
pub open spec fn optional_outcome<T: View>(r: Result<Option<T>, ServiceError>) -> Result<
    Option<T::V>,
    ServiceErrorView,
> {
    match r {
        Ok(Some(v)) => Ok(Some(v@)),
        Ok(None) => Ok(None),
        Err(e) => Err(e@),
    }
}

impl ServiceErrorView {
    /// The status under which the error leaves the service: 404 where a
    /// row was not found, 500 for every other error.
    pub open spec fn status(self) -> u16 {
        match self {
            ServiceErrorView::NotFound(_) => 404,
            _ => 500,
        }
    }

    /// The text that the error carries.
    pub open spec fn message(self) -> Seq<char> {
        match self {
            ServiceErrorView::NotFound(m) => m,
            ServiceErrorView::Conflict(m) => m,
            ServiceErrorView::ReferenceNotFound(m) => m,
            ServiceErrorView::StoreError(m) => m,
        }
    }
}

impl ServiceError {
    /// A `Conflict` with the given text.
    pub fn conflict(text: &str) -> (e: ServiceError)
        ensures
            e@ == ServiceErrorView::Conflict(text@),
    {
        ServiceError::Conflict(text.to_string())
    }

    /// A `ReferenceNotFound` with the given text.
    pub fn reference_not_found(text: &str) -> (e: ServiceError)
        ensures
            e@ == ServiceErrorView::ReferenceNotFound(text@),
    {
        ServiceError::ReferenceNotFound(text.to_string())
    }

    /// A `NotFound` with the given text.
    pub fn not_found(text: &str) -> (e: ServiceError)
        ensures
            e@ == ServiceErrorView::NotFound(text@),
    {
        ServiceError::NotFound(text.to_string())
    }

    /// A `StoreError` that carries the storage layer's message unchanged.
    pub fn store(message: String) -> (e: ServiceError)
        ensures
            e@ == ServiceErrorView::StoreError(message@),
    {
        ServiceError::StoreError(message)
    }

    /// The status under which the error leaves the service: 404 where a
    /// row was not found, 500 for every other error.
    pub fn status(&self) -> (status: u16)
        ensures
            status == self@.status(),
    {
        match self {
            ServiceError::NotFound(_) => 404,
            _ => 500,
        }
    }

    /// The text that the error carries.
    pub fn message(&self) -> (m: String)
        ensures
            m@ == self@.message(),
    {
        match self {
            ServiceError::NotFound(m) => m.clone(),
            ServiceError::Conflict(m) => m.clone(),
            ServiceError::ReferenceNotFound(m) => m.clone(),
            ServiceError::StoreError(m) => m.clone(),
        }
    }
}

} // verus!
