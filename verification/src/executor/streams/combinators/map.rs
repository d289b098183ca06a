//! Mapping a function over the chunks of a stream.

use vstd::prelude::*;

use crate::executor::streams::traits::Peekable;
use crate::messaging::{Readable, Writable};
use crate::utils::PhantomSyncHack;

verus! {

/// Map a function over the outputs of a readable stream.
#[verifier::reject_recursive_types(S)]
#[verifier::reject_recursive_types(R)]
#[verifier::reject_recursive_types(F)]
pub struct ReadMap<S, R, F> where R: Readable, F: Fn(R::ReadChunk) -> S {
    inner: R,
    transformer: F,
}

impl<S, R, F> ReadMap<S, R, F> where R: Readable, F: Fn(R::ReadChunk) -> S {
    /// The transformer can be applied to every chunk of the inner stream.
    #[verifier::type_invariant]
    closed spec fn transformer_total(self) -> bool {
        forall|chunk: R::ReadChunk| #[trigger] self.transformer.requires((chunk,))
    }

    /// The stream mapped over.
    pub closed spec fn spec_inner(&self) -> R {
        self.inner
    }

    /// The function mapped.
    pub closed spec fn spec_transformer(&self) -> F {
        self.transformer
    }

    /// Construct a new instance mapping elements of readable stream `inner` with `transformer`.
    pub fn new(inner: R, transformer: F) -> (r: Self)
        requires
            forall|chunk: R::ReadChunk| #[trigger] transformer.requires((chunk,)),
        ensures
            r.spec_inner() == inner,
            r.spec_transformer() == transformer,
    {
        Self { inner, transformer }
    }

    /// The stream mapped over.
    pub fn inner(&self) -> (r: &R)
        ensures
            *r == self.spec_inner(),
    {
        &self.inner
    }

    /// Apply the transformer to a chunk of the inner stream.
    pub fn transform(&self, chunk: R::ReadChunk) -> (s: S)
        ensures
            self.spec_transformer().ensures((chunk,), s),
    {
        proof {
            use_type_invariant(self);
        }
        (self.transformer)(chunk)
    }

    /// Apply the transformer to what peeking the inner stream gave, if anything.
    pub fn transform_peeked(&self, peeked: Option<R::ReadChunk>) -> (s: Option<S>)
        ensures
            match peeked {
                Some(chunk) => s matches Some(v) && self.spec_transformer().ensures((chunk,), v),
                None => s is None,
            },
    {
        match peeked {
            Some(chunk) => Some(self.transform(chunk)),
            None => None,
        }
    }
}

impl<S, R, F> Readable for ReadMap<S, R, F> where S: Send, R: Readable, F: Fn(R::ReadChunk) -> S {
    type ReadChunk = S;
}

impl<S, R, F> Peekable for ReadMap<S, R, F> where
    S: Send,
    R: Peekable,
    F: Fn(R::ReadChunk) -> S + Send + Sync,
 {
    /// Peeking may give nothing where the inner stream's peek may, and the transformer's result
    /// on a chunk the inner stream's peek may give.
    open spec fn may_peek(&self, peeked: Option<S>) -> bool {
        match peeked {
            None => self.spec_inner().may_peek(None),
            Some(s) => exists|chunk: R::ReadChunk|
                #![trigger self.spec_transformer().ensures((chunk,), s)]
                self.spec_inner().may_peek(Some(chunk)) && self.spec_transformer().ensures(
                    (chunk,),
                    s,
                ),
        }
    }

    /// Peek the inner stream, and map the transformer over what it gave.
    fn peek(&self) -> Option<S> {
        let peeked = self.inner.peek();
        self.transform_peeked(peeked)
    }
}

/// Map a function over the inputs to a writable stream.
#[verifier::reject_recursive_types(S)]
#[verifier::reject_recursive_types(W)]
#[verifier::reject_recursive_types(F)]
pub struct WriteMap<S, W, F> where W: Writable, F: Fn(S) -> W::WriteChunk {
    _ph: PhantomSyncHack<S>,
    inner: W,
    transformer: F,
}

impl<S, W, F> WriteMap<S, W, F> where W: Writable, F: Fn(S) -> W::WriteChunk {
    /// The transformer can be applied to every chunk written.
    #[verifier::type_invariant]
    closed spec fn transformer_total(self) -> bool {
        forall|chunk: S| #[trigger] self.transformer.requires((chunk,))
    }

    /// The stream mapped over.
    pub closed spec fn spec_inner(&self) -> W {
        self.inner
    }

    /// The function mapped.
    pub closed spec fn spec_transformer(&self) -> F {
        self.transformer
    }

    /// Construct a new instance mapping elements of writable stream `inner` with `transformer`.
    pub fn new(inner: W, transformer: F) -> (r: Self)
        requires
            forall|chunk: S| #[trigger] transformer.requires((chunk,)),
        ensures
            r.spec_inner() == inner,
            r.spec_transformer() == transformer,
    {
        Self { inner, transformer, _ph: PhantomSyncHack::default() }
    }

    /// The stream mapped over.
    pub fn inner(&self) -> (r: &W)
        ensures
            *r == self.spec_inner(),
    {
        &self.inner
    }

    /// Apply the transformer to a chunk written.
    pub fn transform(&self, chunk: S) -> (w: W::WriteChunk)
        ensures
            self.spec_transformer().ensures((chunk,), w),
    {
        proof {
            use_type_invariant(self);
        }
        (self.transformer)(chunk)
    }
}

impl<S, W, F> Writable for WriteMap<S, W, F> where S: Send, W: Writable, F: Fn(S) -> W::WriteChunk {
    type WriteChunk = S;
}

} // verus!
