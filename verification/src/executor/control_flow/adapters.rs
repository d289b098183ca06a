//! "Primitive" implementations of stream traits.

use vstd::prelude::*;
use vstd::std_specs::iter::IteratorSpec;

use async_mutex::Mutex;

use super::State;
use crate::executor::streams::traits::Peekable;
use crate::executor::utils::{guarded_value, new_mutex, try_lock};
use crate::messaging::Readable;

verus! {

/// Take the next item of an iterator as a stream state: for an iterator that keeps its laws, the
/// first of the items it has left is yielded and taken off, and an iterator with none left
/// completes the stream.
pub fn next_state<T, I: Iterator<Item = T>>(elements: &mut I) -> (s: State<T>)
    ensures
        (*old(elements)).obeys_prophetic_iter_laws() ==> if (*old(elements)).remaining().len() > 0 {
            &&& s == State::Yielded((*old(elements)).remaining()[0])
            &&& (*final(elements)).remaining() == (*old(elements)).remaining().drop_first()
        } else {
            s is Completed
        },
{
    State::from_next(elements.next())
}

/// Provide values from a non-async iterable.
#[verifier::reject_recursive_types(I)]
pub struct Source<I> {
    static_elements: Mutex<I>,
}

impl<I> Source<I> {
    /// Construct a new instance with the iterator `static_elements`.
    pub fn new(static_elements: I) -> Self {
        Self { static_elements: new_mutex(static_elements) }
    }

    /// The mutex the iterator stands behind.
    pub closed spec fn spec_static_elements(&self) -> Mutex<I> {
        self.static_elements
    }

    /// The mutex the iterator stands behind.
    pub fn static_elements(&self) -> (r: &Mutex<I>)
        ensures
            *r == self.spec_static_elements(),
    {
        &self.static_elements
    }
}

impl<T, I> Readable for Source<I> where T: Send, I: Iterator<Item = T> {
    type ReadChunk = State<I::Item>;
}

impl<T, I> Peekable for Source<I> where T: Send, I: Iterator<Item = T> + Send {
    /// If the iterator is not in use, take its next item: an item is yielded, and the end of
    /// the iterator completes the stream. A state is only ever given as the outcome of a step
    /// of an iterator of the source's type: for an iterator that keeps its laws, a yielded item
    /// is the first of the items it had left, which the step takes off, and completion means it
    /// had none left.
    fn peek(&self) -> (peeked: Option<State<T>>)
        ensures
            peeked matches Some(s) ==> exists|before: I, after: I|
                #![trigger before.remaining(), after.remaining()]
                before.obeys_prophetic_iter_laws() ==> if before.remaining().len() > 0 {
                    &&& s == State::Yielded(before.remaining()[0])
                    &&& after.remaining() == before.remaining().drop_first()
                } else {
                    s is Completed
                },
    {
        match try_lock(&self.static_elements) {
            Some(mut guard) => {
                let elements = guarded_value(&mut guard);
                let ghost before: I = *elements;
                let s = next_state(elements);
                let ghost after: I = *elements;
                assert(before.obeys_prophetic_iter_laws() ==> if before.remaining().len() > 0 {
                    &&& s == State::Yielded(before.remaining()[0])
                    &&& after.remaining() == before.remaining().drop_first()
                } else {
                    s is Completed
                });
                Some(s)
            },
            None => None,
        }
    }
}

} // verus!
