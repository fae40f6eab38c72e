//! The error taxonomy of the service, and its mapping to transport-level
//! status codes and response bodies.

use vstd::prelude::*;

verus! {

/// A failure of a repository operation.
#[derive(Debug)]
pub enum ServiceError {
    /// The requested id has no corresponding entity.
    NotFound,
    /// The input broke a creation rule or was malformed.
    BadRequest(String),
    /// The underlying storage failed; the payload is the internal detail,
    /// never shown to a client.
    DbError(String),
}

impl ServiceError {
    /// The HTTP status code the error maps to.
    pub open spec fn spec_status_code(&self) -> u16 {
        match self {
            ServiceError::NotFound => 404,
            ServiceError::BadRequest(_) => 400,
            ServiceError::DbError(_) => 500,
        }
    }

    pub fn status_code(&self) -> (r: u16)
        ensures
            r == self.spec_status_code(),
    {
        match self {
            ServiceError::NotFound => 404,
            ServiceError::BadRequest(_) => 400,
            ServiceError::DbError(_) => 500,
        }
    }

    /// The message shown in the error response body. The storage detail is
    /// never leaked: every storage fault reads "Database error".
    pub open spec fn spec_message(&self) -> Seq<char> {
        match self {
            ServiceError::NotFound => "Order not found"@,
            ServiceError::BadRequest(m) => "Invalid input: "@ + m@,
            ServiceError::DbError(_) => "Database error"@,
        }
    }

    pub fn message(&self) -> (r: String)
        ensures
            r@ == self.spec_message(),
    {
        match self {
            ServiceError::NotFound => String::from_str("Order not found"),
            ServiceError::BadRequest(m) => {
                let mut s = String::from_str("Invalid input: ");
                s.append(m.as_str());
                s
            },
            ServiceError::DbError(_) => String::from_str("Database error"),
        }
    }
}

} // verus!
