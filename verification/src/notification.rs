//! What a notification subscriber does with each thing its channel hands
//! it: pass a notification on, wait, try again, or stop.
use vstd::prelude::*;

verus! {

/// What one receive on a subscriber's channel gave.
#[derive(Debug, PartialEq)]
pub enum Received<T> {
    /// A notification: `Some` of the part the subscriber follows, or `None`
    /// for a notification of another kind.
    Item(Option<T>),
    /// Nothing has arrived yet.
    Empty,
    /// The subscriber fell behind and some notifications were dropped.
    Lagged,
    /// The connection is gone and nothing more will come.
    Closed,
}

/// What the subscriber does next.
#[derive(Debug, PartialEq)]
pub enum Step<T> {
    /// Hand this notification to the reader.
    Yield(T),
    /// Wait until something arrives.
    Pending,
    /// Receive again at once.
    Retry,
    /// End the stream.
    End,
}

/// A notification the subscriber follows is handed on, one of another kind
/// and a report of missed ones are passed over, and the stream ends when the
/// channel closes.
pub fn next_step<T>(received: Received<T>) -> (s: Step<T>)
    ensures
        match received {
            Received::Item(Some(x)) => s == Step::Yield(x),
            Received::Item(None) => s == Step::<T>::Retry,
            Received::Empty => s == Step::<T>::Pending,
            Received::Lagged => s == Step::<T>::Retry,
            Received::Closed => s == Step::<T>::End,
        },
{
    match received {
        Received::Item(Some(x)) => Step::Yield(x),
        Received::Item(None) => Step::Retry,
        Received::Empty => Step::Pending,
        Received::Lagged => Step::Retry,
        Received::Closed => Step::End,
    }
}

} // verus!
