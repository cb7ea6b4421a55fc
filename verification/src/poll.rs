//! The answer of one poll.
use vstd::prelude::*;

verus! {

/// Whether what was polled is done, and with what.
#[derive(Debug)]
pub enum Poll<T> {
    /// It is done, with this value.
    Ready(T),
    /// It is not done yet: the waker that was handed in is woken when polling
    /// again is worth while.
    Pending,
}

impl<T> Poll<T> {
    /// Whether the answer is `Ready`.
    pub fn is_ready(&self) -> (ready: bool)
        ensures
            ready == (*self is Ready),
    {
        match self {
            Poll::Ready(_) => true,
            Poll::Pending => false,
        }
    }

    /// Whether the answer is `Pending`.
    pub fn is_pending(&self) -> (pending: bool)
        ensures
            pending == (*self is Pending),
    {
        match self {
            Poll::Ready(_) => false,
            Poll::Pending => true,
        }
    }
}

} // verus!
