//! Failure signals of the storage layer and of the service.

use vstd::prelude::*;

verus! {

/// Why the storage layer refused a write.
#[derive(Clone, Copy, Debug, PartialEq, Eq, Structural)]
pub enum StorageError {
    /// A template with the same name is already stored.
    UniqueViolation,
    /// The template that the rows refer to is not stored.
    ForeignKeyViolation,
    /// The id sequence of a table has no value left for the rows.
    SequenceExhausted,
}

/// Failure of a service operation.
#[derive(Debug)]
pub enum ServiceError {
    /// No template has the name that was looked up.
    NotFound(String),
    /// The caller's input is invalid.
    BadRequest(String),
    /// Something failed that the caller has no part in.
    InternalServerErrorWithContext(String),
    /// The name collides with the stored state.
    ObjectConflict(String),
}

pub type ServiceResult<T> = Result<T, ServiceError>;

/// The kind of a service error, without its message.
#[derive(Clone, Copy, Debug, PartialEq, Eq, Structural)]
pub enum ErrorKind {
    NotFound,
    BadRequest,
    Internal,
    Conflict,
}

/// Mathematical model of a [`ServiceError`]: its kind and the text it carries.
#[verifier::ext_equal]
pub struct ServiceErrorView {
    pub kind: ErrorKind,
    pub message: Seq<char>,
}

impl View for ServiceError {
    type V = ServiceErrorView;

    open spec fn view(&self) -> ServiceErrorView {
        match *self {
            ServiceError::NotFound(m) => ServiceErrorView { kind: ErrorKind::NotFound, message: m@ },
            ServiceError::BadRequest(m) => ServiceErrorView { kind: ErrorKind::BadRequest, message: m@ },
            ServiceError::InternalServerErrorWithContext(m) => ServiceErrorView {
                kind: ErrorKind::Internal,
                message: m@,
            },
            ServiceError::ObjectConflict(m) => ServiceErrorView { kind: ErrorKind::Conflict, message: m@ },
        }
    }
}

impl ServiceError {
    /// The kind of this error.
    pub fn kind(&self) -> (k: ErrorKind)
        ensures
            k == self@.kind,
    {
        match self {
            ServiceError::NotFound(_) => ErrorKind::NotFound,
            ServiceError::BadRequest(_) => ErrorKind::BadRequest,
            ServiceError::InternalServerErrorWithContext(_) => ErrorKind::Internal,
            ServiceError::ObjectConflict(_) => ErrorKind::Conflict,
        }
    }

    /// The text that the error carries.
    pub fn message(&self) -> (m: String)
        ensures
            m@ == self@.message,
    {
        match self {
            ServiceError::NotFound(m) => m.clone(),
            ServiceError::BadRequest(m) => m.clone(),
            ServiceError::InternalServerErrorWithContext(m) => m.clone(),
            ServiceError::ObjectConflict(m) => m.clone(),
        }
    }
}

} // verus!
