use vstd::prelude::*;

verus! {

/// Why the store, or the connection to it, could not carry out a request.
#[derive(Clone, Copy, Debug, PartialEq, Eq, Structural)]
pub enum StoreFailure {
    /// No connection could be had, or the store did not respond.
    Unreachable,
    /// The store rejected the statement itself.
    MalformedQuery,
    /// The statement broke a constraint of the schema.
    ConstraintViolation,
}

/// The two ways in which an operation of the repository fails.
#[derive(Clone, Copy, Debug, PartialEq, Eq, Structural)]
pub enum CustomError {
    /// The connection or the query layer failed; the cause is handed on as
    /// the store reported it.
    DataAccessError(StoreFailure),
    /// A fetch of a single row matched no row.
    NotFound,
}

} // verus!
