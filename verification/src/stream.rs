//! A feed of announcements, polled without waiting.

use std::collections::VecDeque;
use vstd::prelude::*;

verus! {

/// A subscription to one signal on the bus: the live handle through which
/// the announcements arrive, and those that have arrived and are not yet
/// consumed, oldest first.
///
/// The library never looks into the handle; it keeps it for as long as the
/// subscription is wanted and drops it with the stream.
#[derive(Debug)]
pub struct SignalStream<H, T> {
    pub handle: H,
    pub ready: VecDeque<T>,
}

impl<H, T> SignalStream<H, T> {
    /// The announcements that wait to be consumed, oldest first.
    pub open spec fn waiting(&self) -> Seq<T> {
        self.ready@
    }

    /// A stream on which nothing has arrived yet.
    pub fn new(handle: H) -> (stream: Self)
        ensures
            stream.handle == handle,
            stream.waiting() == Seq::<T>::empty(),
    {
        SignalStream { handle, ready: VecDeque::new() }
    }

    /// Whether nothing waits to be consumed.
    pub fn is_empty(&self) -> (r: bool)
        ensures
            r == (self.waiting().len() == 0),
    {
        self.ready.len() == 0
    }

    /// Takes in an announcement that has arrived through the handle.
    pub fn deliver(&mut self, message: T)
        ensures
            final(self).handle == old(self).handle,
            final(self).waiting() == old(self).waiting().push(message),
    {
        self.ready.push_back(message);
    }

    /// Hands out the oldest announcement that waits, if there is one.
    pub fn poll_next(&mut self) -> (message: Option<T>)
        ensures
            final(self).handle == old(self).handle,
            match message {
                Some(m) => {
                    &&& old(self).waiting().len() > 0
                    &&& m == old(self).waiting()[0]
                    &&& final(self).waiting() == old(self).waiting().drop_first()
                },
                None => {
                    &&& old(self).waiting().len() == 0
                    &&& final(self).waiting() == old(self).waiting()
                },
            },
    {
        self.ready.pop_front()
    }
}

} // verus!
