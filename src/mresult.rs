//! A two-variant result value with explicit construction and inspection.
use vstd::prelude::*;

verus! {

/// Either a success value or an error value.
pub enum MResult<T, E> {
    Success(T),
    Failure(E),
}

impl<T, E> MResult<T, E> {
    /// A success holding `value`.
    pub fn ok(value: T) -> (r: MResult<T, E>)
        ensures
            r == MResult::<T, E>::Success(value),
    {
        MResult::Success(value)
    }

    /// A failure holding `error`.
    pub fn err(error: E) -> (r: MResult<T, E>)
        ensures
            r == MResult::<T, E>::Failure(error),
    {
        MResult::Failure(error)
    }

    /// Whether this is a success.
    pub fn is_ok(&self) -> (r: bool)
        ensures
            r == (self is Success),
    {
        match self {
            MResult::Success(_) => true,
            _ => false,
        }
    }

    /// Whether this is a failure.
    pub fn is_err(&self) -> (r: bool)
        ensures
            r == (self is Failure),
    {
        match self {
            MResult::Failure(_) => true,
            _ => false,
        }
    }

    /// The success value; only a success may be unwrapped.
    pub fn unwrap(self) -> (r: T)
        requires
            self is Success,
        ensures
            r == self->Success_0,
    {
        match self {
            MResult::Success(value) => value,
            MResult::Failure(_) => unreached(),
        }
    }

    /// The error value; only a failure may be unwrapped this way.
    pub fn unwrap_err(self) -> (r: E)
        requires
            self is Failure,
        ensures
            r == self->Failure_0,
    {
        match self {
            MResult::Failure(error) => error,
            MResult::Success(_) => unreached(),
        }
    }
}

} // verus!
