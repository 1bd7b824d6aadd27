use vstd::prelude::*;

verus! {

/// The two kinds of failure that a caller of the service can observe.
#[derive(Clone, Copy, Debug, PartialEq, Eq, Structural)]
pub enum ApiError {
    /// The record that the request names does not exist.
    NotFound,
    /// Any other failure of the store. The cause is deliberately not carried.
    Internal,
}

/// Why a call to the store failed, as the store reports it.
#[derive(Clone, Copy, Debug, PartialEq, Eq, Structural)]
pub enum StoreError {
    /// The record that the call targets is confirmed absent.
    RecordNotFound,
    /// The store could not be reached.
    Connectivity,
    /// The store refused the change.
    Constraint,
    /// The store did not answer in time.
    Timeout,
    /// Anything else.
    Other,
}

/// The five operations on users.
#[derive(Clone, Copy, Debug, PartialEq, Eq, Structural)]
pub enum Operation {
    List,
    Get,
    Create,
    Update,
    Delete,
}

/// Whether an operation names one existing record as its target.
pub open spec fn targets_record(op: Operation) -> bool {
    op == Operation::Get || op == Operation::Update || op == Operation::Delete
}

/// The failure that a caller sees when `op` met the store failure `e`:
/// `NotFound` only for a confirmed absent target, `Internal` for all else.
pub open spec fn classified(op: Operation, e: StoreError) -> ApiError {
    if targets_record(op) && e == StoreError::RecordNotFound {
        ApiError::NotFound
    } else {
        ApiError::Internal
    }
}

/// HTTP status of a failure.
pub open spec fn status_of(e: ApiError) -> u16 {
    match e {
        ApiError::NotFound => 404u16,
        ApiError::Internal => 500u16,
    }
}

/// Maps a store failure to the failure reported to the caller.
pub fn classify(op: Operation, e: StoreError) -> (r: ApiError)
    ensures
        r == classified(op, e),
{
    match (op, e) {
        (Operation::Get, StoreError::RecordNotFound) => ApiError::NotFound,
        (Operation::Update, StoreError::RecordNotFound) => ApiError::NotFound,
        (Operation::Delete, StoreError::RecordNotFound) => ApiError::NotFound,
        _ => ApiError::Internal,
    }
}

impl ApiError {
    /// The HTTP status code that stands for this failure.
    pub fn status(&self) -> (r: u16)
        ensures
            r == status_of(*self),
    {
        match self {
            ApiError::NotFound => 404u16,
            ApiError::Internal => 500u16,
        }
    }

    /// The text sent to the caller. It never holds the store's own words.
    pub fn message(&self) -> (r: String)
        ensures
            *self == ApiError::NotFound ==> r@ == "User not found"@,
            *self == ApiError::Internal ==> r@ == "Internal server error"@,
    {
        match self {
            ApiError::NotFound => "User not found".to_owned(),
            ApiError::Internal => "Internal server error".to_owned(),
        }
    }
}

} // verus!
