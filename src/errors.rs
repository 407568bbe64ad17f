use vstd::prelude::*;
use vstd::string::*;

verus! {

/// A raw failure raised by the store, before it is classified.
#[derive(Debug, PartialEq, Eq, Structural)]
pub enum StoreError {
    /// A row would repeat a value of a unique column.
    UniqueViolation,
    /// A lookup by key matched no row.
    NotFound,
    /// A row would reference a row that does not exist.
    ForeignKeyViolation,
    /// A table has used up every id that its key column can hold.
    CapacityExceeded,
    /// No connection to the store could be acquired.
    ConnectionUnavailable,
}

/// The closed set of outcomes that every failure is reduced to.
#[derive(Debug, PartialEq, Eq, Structural)]
pub enum AppError {
    RecordAlreadyExists,
    RecordNotFound,
    /// Any other store failure, kept for diagnostics.
    DatabaseError(StoreError),
    OperationCanceled,
}

/// How work handed to the worker pool can fail: the work itself failed, or
/// its result was abandoned before it could be delivered.
#[derive(Debug, PartialEq, Eq, Structural)]
pub enum BlockingError<E> {
    Error(E),
    Canceled,
}

/// The classification of a raw store failure.
pub open spec fn classify(e: StoreError) -> AppError {
    match e {
        StoreError::UniqueViolation => AppError::RecordAlreadyExists,
        StoreError::NotFound => AppError::RecordNotFound,
        _ => AppError::DatabaseError(e),
    }
}

/// The classification of a failure of offloaded work.
pub open spec fn classify_blocking(e: BlockingError<AppError>) -> AppError {
    match e {
        BlockingError::Error(inner) => inner,
        BlockingError::Canceled => AppError::OperationCanceled,
    }
}

/// The response status that goes with each kind of failure.
pub open spec fn status_of(e: AppError) -> u16 {
    match e {
        AppError::RecordAlreadyExists => 400,
        AppError::RecordNotFound => 404,
        _ => 500,
    }
}

/// A short description of a raw store failure.
pub open spec fn store_error_text(e: StoreError) -> Seq<char> {
    match e {
        StoreError::UniqueViolation => "unique constraint failed"@,
        StoreError::NotFound => "no matching row"@,
        StoreError::ForeignKeyViolation => "foreign key constraint failed"@,
        StoreError::CapacityExceeded => "table is full"@,
        StoreError::ConnectionUnavailable => "no connection available"@,
    }
}

/// The human-readable message that goes with each kind of failure. The store
/// failure carried by `DatabaseError` is kept for diagnostics and never shown.
pub open spec fn message_of(e: AppError) -> Seq<char> {
    match e {
        AppError::RecordAlreadyExists => "This record violates a unique constraint"@,
        AppError::RecordNotFound => "This record does not exist"@,
        AppError::DatabaseError(_) => "Database error"@,
        AppError::OperationCanceled => "The running operation was canceled"@,
    }
}

impl StoreError {
    /// A short description of this failure, for diagnostics.
    pub fn description(&self) -> (r: &'static str)
        ensures
            r@ == store_error_text(*self),
    {
        match self {
            StoreError::UniqueViolation => "unique constraint failed",
            StoreError::NotFound => "no matching row",
            StoreError::ForeignKeyViolation => "foreign key constraint failed",
            StoreError::CapacityExceeded => "table is full",
            StoreError::ConnectionUnavailable => "no connection available",
        }
    }
}

impl AppError {
    /// The response status for this failure: 400 for a duplicate, 404 for a
    /// missing record, 500 for anything else.
    pub fn status_code(&self) -> (r: u16)
        ensures
            r == status_of(*self),
    {
        match self {
            AppError::RecordAlreadyExists => 400,
            AppError::RecordNotFound => 404,
            _ => 500,
        }
    }

    /// The message shown to a client for this failure.
    pub fn message(&self) -> (r: String)
        ensures
            r@ == message_of(*self),
    {
        match self {
            AppError::RecordAlreadyExists => String::from_str("This record violates a unique constraint"),
            AppError::RecordNotFound => String::from_str("This record does not exist"),
            AppError::DatabaseError(_) => String::from_str("Database error"),
            AppError::OperationCanceled => String::from_str("The running operation was canceled"),
        }
    }
}

impl From<StoreError> for AppError {
    /// A uniqueness violation becomes `RecordAlreadyExists`, a failed lookup
    /// `RecordNotFound`, and any other failure is carried in `DatabaseError`.
    fn from(e: StoreError) -> (r: AppError) {
        match e {
            StoreError::UniqueViolation => AppError::RecordAlreadyExists,
            StoreError::NotFound => AppError::RecordNotFound,
            _ => AppError::DatabaseError(e),
        }
    }
}

impl vstd::std_specs::convert::FromSpecImpl<StoreError> for AppError {
    open spec fn obeys_from_spec() -> bool {
        true
    }

    open spec fn from_spec(e: StoreError) -> AppError {
        classify(e)
    }
}

impl From<BlockingError<AppError>> for AppError {
    /// A failure of the work passes through unchanged; an abandoned result
    /// becomes `OperationCanceled`.
    fn from(e: BlockingError<AppError>) -> (r: AppError) {
        match e {
            BlockingError::Error(inner) => inner,
            BlockingError::Canceled => AppError::OperationCanceled,
        }
    }
}

impl vstd::std_specs::convert::FromSpecImpl<BlockingError<AppError>> for AppError {
    open spec fn obeys_from_spec() -> bool {
        true
    }

    open spec fn from_spec(e: BlockingError<AppError>) -> AppError {
        classify_blocking(e)
    }
}

} // verus!
