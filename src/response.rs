use vstd::prelude::*;
use crate::errors::{message_of, status_of, AppError};

verus! {

/// The body of a failed response: one message field, with its status.
#[derive(Debug, PartialEq, Eq)]
pub struct ErrorResponse {
    pub status: u16,
    pub err: String,
}

/// The uniform outcome handed to the boundary: the value itself, to be sent
/// with status 200, or an error body.
#[derive(Debug, PartialEq, Eq)]
pub enum Envelope<T> {
    Success(T),
    Failure(ErrorResponse),
}

/// The status that goes with an envelope.
pub open spec fn envelope_status<T>(e: Envelope<T>) -> u16 {
    match e {
        Envelope::Success(_) => 200,
        Envelope::Failure(b) => b.status,
    }
}

impl<T> Envelope<T> {
    /// 200 for a success, else the status of the failure.
    pub fn status(&self) -> (r: u16)
        ensures
            r == envelope_status(*self),
    {
        match self {
            Envelope::Success(_) => 200,
            Envelope::Failure(b) => b.status,
        }
    }
}

/// Turns the outcome of an operation into an envelope: a value is carried as
/// it is, and a failure becomes its message with the status of its kind.
pub fn convert<T>(res: Result<T, AppError>) -> (r: Envelope<T>)
    ensures
        match res {
            Ok(v) => r == Envelope::<T>::Success(v),
            Err(e) => match r {
                Envelope::Failure(b) => b.status == status_of(e) && b.err@ == message_of(e),
                Envelope::Success(_) => false,
            },
        },
{
    match res {
        Ok(v) => Envelope::Success(v),
        Err(e) => Envelope::Failure(ErrorResponse { status: e.status_code(), err: e.message() }),
    }
}

} // verus!
