//! Errors of the order service.
use vstd::prelude::*;

use crate::model::ValidationError;

verus! {

#[derive(Debug)]
pub enum Error {
    /// The requested aggregate or facet does not exist.
    NotFound { id_name: String, id_val: String, target: String },
    /// A value was malformed; nothing was stored.
    Invalid(ValidationError),
    /// A row that the order row refers to is missing.
    Integrity { target: String, id_val: String },
    /// A unique key is already taken.
    Conflict { target: String, key: String },
    /// The store could not be reached or refused the query.
    Store { message: String },
    /// The cache could not be reached or refused the command.
    Cache { message: String },
}

/// The status a caller sees: not-found apart, malformed input apart, all else a
/// generic failure.
pub open spec fn status_of(e: Error) -> u16 {
    match e {
        Error::NotFound { .. } => 404,
        Error::Invalid(_) => 422,
        _ => 500,
    }
}

impl Error {
    pub fn not_found(id_name: &str, id_val: &str, target: &str) -> (r: Error)
        ensures
            r matches Error::NotFound { id_name: n, id_val: v, target: t } && n@ == id_name@
                && v@ == id_val@ && t@ == target@,
    {
        Error::NotFound {
            id_name: String::from_str(id_name),
            id_val: String::from_str(id_val),
            target: String::from_str(target),
        }
    }

    pub fn is_not_found(&self) -> (r: bool)
        ensures
            r <==> self is NotFound,
    {
        match self {
            Error::NotFound { .. } => true,
            _ => false,
        }
    }

    pub fn status_code(&self) -> (r: u16)
        ensures
            r == status_of(*self),
    {
        match self {
            Error::NotFound { .. } => 404,
            Error::Invalid(_) => 422,
            _ => 500,
        }
    }
}

} // verus!
