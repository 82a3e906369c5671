//! A value that may be absent, and the explicit ways of getting at it.

use vstd::prelude::*;

verus! {

/// A value that is either there or not. `Absent` carries nothing, and the
/// only way to the value inside `Present` is a case split or one of the
/// helpers below.
#[derive(Debug, PartialEq, Eq)]
pub enum Optional<T> {
    Present(T),
    Absent,
}

/// What `unwrap_or_fail` returns for an absent value: the caller's own
/// description of the fault, handed back unchanged.
#[derive(Debug, PartialEq, Eq)]
pub struct UnwrapFailure<E> {
    pub error: E,
}

impl<T> Optional<T> {
    /// The value inside, or `default` where there is none.
    pub open spec fn value_or(self, default: T) -> T {
        match self {
            Optional::Present(value) => value,
            Optional::Absent => default,
        }
    }

    /// Wraps a value that is there.
    pub fn wrap(value: T) -> (wrapped: Self)
        ensures
            wrapped == Optional::Present(value),
    {
        Optional::Present(value)
    }

    /// Whether a value is there.
    pub fn is_present(&self) -> (present: bool)
        ensures
            present == (*self is Present),
    {
        match self {
            Optional::Present(_) => true,
            Optional::Absent => false,
        }
    }

    /// The value inside, or `default` where there is none.
    pub fn unwrap_or(self, default: T) -> (value: T)
        ensures
            value == self.value_or(default),
    {
        match self {
            Optional::Present(value) => value,
            Optional::Absent => default,
        }
    }

    /// The value inside, or a failure that carries `error` where there is none.
    pub fn unwrap_or_fail<E>(self, error: E) -> (outcome: Result<T, UnwrapFailure<E>>)
        ensures
            self matches Optional::Present(value) ==> outcome == Ok::<T, UnwrapFailure<E>>(value),
            self is Absent ==> outcome == Err::<T, UnwrapFailure<E>>(UnwrapFailure { error }),
    {
        match self {
            Optional::Present(value) => Ok(value),
            Optional::Absent => Err(UnwrapFailure { error }),
        }
    }
}

impl<T: Clone> Clone for Optional<T> {
    fn clone(&self) -> (copy: Self)
        ensures
            *self is Absent ==> copy is Absent,
            *self matches Optional::Present(value) ==> (copy matches Optional::Present(other) && cloned::<T>(
                value,
                other,
            )),
    {
        match self {
            Optional::Present(value) => Optional::Present(value.clone()),
            Optional::Absent => Optional::Absent,
        }
    }
}

impl<T: Copy> Copy for Optional<T> {

}

/// What was wrapped comes out again, whatever the default; where nothing
/// is there, the default comes out.
pub proof fn law_wrap_round_trip<T>(value: T, default: T)
    ensures
        Optional::Present(value).value_or(default) == value,
        Optional::<T>::Absent.value_or(default) == default,
{
}

} // verus!
