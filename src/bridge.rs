use vstd::prelude::*;
use crate::errors::{classify_blocking, AppError, BlockingError};

verus! {

/// Where the result of work handed to the worker pool stands.
pub enum Delivery<T> {
    /// The work has not finished and its consumer still waits.
    Pending,
    /// The work finished with this result, which is waiting to be taken.
    Ready(Result<T, AppError>),
    /// The consumer gave up the handle; any result is dropped.
    Abandoned,
}

/// The state after the consumer gives up the handle.
pub open spec fn after_abandon<T>(s: Delivery<T>) -> Delivery<T> {
    Delivery::Abandoned
}

/// The state after the work finishes with `r`: kept only when it is the
/// first result and someone still waits for it.
pub open spec fn after_complete<T>(s: Delivery<T>, r: Result<T, AppError>) -> Delivery<T> {
    match s {
        Delivery::Pending => Delivery::Ready(r),
        _ => s,
    }
}

/// What the consumer sees: nothing yet, the work's own result with its
/// failure passed through, or a cancellation.
pub open spec fn observation<T>(s: Delivery<T>) -> Option<Result<T, BlockingError<AppError>>> {
    match s {
        Delivery::Pending => None,
        Delivery::Ready(r) => Some(
            match r {
                Ok(v) => Ok(v),
                Err(e) => Err(BlockingError::Error(e)),
            },
        ),
        Delivery::Abandoned => Some(Err(BlockingError::Canceled)),
    }
}

/// A failure of offloaded work, reduced to the failure kinds.
pub open spec fn settled<T>(r: Result<T, BlockingError<AppError>>) -> Result<T, AppError> {
    match r {
        Ok(v) => Ok(v),
        Err(e) => Err(classify_blocking(e)),
    }
}

/// The handle through which the result of offloaded work is delivered to its
/// consumer. Only the delivery side knows about abandonment: the work itself
/// always runs to its end.
pub struct Deferred<T> {
    state: Delivery<T>,
}

impl<T> View for Deferred<T> {
    type V = Delivery<T>;

    closed spec fn view(&self) -> Delivery<T> {
        self.state
    }
}

impl<T> Deferred<T> {
    /// A handle whose work has just been dispatched.
    pub fn new() -> (d: Deferred<T>)
        ensures
            d@ == Delivery::<T>::Pending,
    {
        Deferred { state: Delivery::Pending }
    }

    /// The consumer gives up waiting; a result, if any comes, is dropped.
    pub fn abandon(&mut self)
        ensures
            final(self)@ == after_abandon(old(self)@),
    {
        self.state = Delivery::Abandoned;
    }

    /// The work finished with `r`. A result that nobody waits for any more,
    /// or that comes after the first, is dropped.
    pub fn complete(&mut self, r: Result<T, AppError>)
        ensures
            final(self)@ == after_complete(old(self)@, r),
    {
        match self.state {
            Delivery::Pending => {
                self.state = Delivery::Ready(r);
            },
            _ => {},
        }
    }

    /// Whether nothing has been delivered yet.
    pub fn is_pending(&self) -> (r: bool)
        ensures
            r == (self@ is Pending),
    {
        match self.state {
            Delivery::Pending => true,
            _ => false,
        }
    }

    /// Takes what the consumer sees: `None` while the work runs, then the
    /// result, or `Canceled` when the handle was abandoned.
    pub fn observe(self) -> (r: Option<Result<T, BlockingError<AppError>>>)
        ensures
            r == observation(self@),
    {
        match self.state {
            Delivery::Pending => None,
            Delivery::Ready(r) => Some(
                match r {
                    Ok(v) => Ok(v),
                    Err(e) => Err(BlockingError::Error(e)),
                },
            ),
            Delivery::Abandoned => Some(Err(BlockingError::Canceled)),
        }
    }
}

/// Reduces the outcome of offloaded work to the failure kinds: a failure of
/// the work passes through unchanged and a cancellation becomes
/// `OperationCanceled`.
pub fn settle<T>(r: Result<T, BlockingError<AppError>>) -> (out: Result<T, AppError>)
    ensures
        out == settled(r),
{
    match r {
        Ok(v) => Ok(v),
        Err(e) => Err(AppError::from(e)),
    }
}

/// Once the consumer has abandoned the handle, whatever the work later
/// returns, the handle reports a cancellation, and that settles as
/// `OperationCanceled`.
pub proof fn lemma_abandoned_reports_canceled<T>(s: Delivery<T>, r: Result<T, AppError>)
    ensures
        observation(after_complete(after_abandon(s), r)) == Some(
            Err::<T, BlockingError<AppError>>(BlockingError::Canceled),
        ),
        settled(observation(after_complete(after_abandon(s), r)).unwrap()) == Err::<T, AppError>(
            AppError::OperationCanceled,
        ),
{
}

/// A result is delivered at most once: the first completion of a pending
/// handle is what the consumer sees, and a later one changes nothing.
pub proof fn lemma_first_result_kept<T>(r1: Result<T, AppError>, r2: Result<T, AppError>)
    ensures
        after_complete(after_complete(Delivery::Pending, r1), r2) == Delivery::Ready(r1),
        observation(after_complete(after_complete(Delivery::Pending, r1), r2)) == observation(
            Delivery::Ready(r1),
        ),
{
}

/// A result that reaches a waiting consumer comes through unchanged: a value
/// stays the value, and a failure of the work keeps its kind.
pub proof fn lemma_delivered_unchanged<T>(r: Result<T, AppError>)
    ensures
        settled(observation(after_complete(Delivery::Pending, r)).unwrap()) == r,
{
}

} // verus!
