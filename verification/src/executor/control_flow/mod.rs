//! Use streams for control flow.

use vstd::prelude::*;

pub mod adapters;

verus! {

/// Modelled off of the rust generator nightly feature: a stream either yields a value or
/// reports that it has completed.
///
/// Note that `Y` may be a [`Result`]!
#[derive(Debug, Clone, Copy, PartialEq, Eq)]
pub enum State<Y> {
    /// A value produced by the stream.
    Yielded(Y),
    /// The stream has no more values.
    Completed,
}

impl<Y> State<Y> {
    /// The state with `f` applied to the yielded value, if any.
    pub open spec fn map_spec<T>(self, f: spec_fn(Y) -> T) -> State<T> {
        match self {
            State::Yielded(v) => State::Yielded(f(v)),
            State::Completed => State::Completed,
        }
    }

    /// Map a function over any yielded value, or propagate completeness.
    pub fn map_state<T, F>(self, f: F) -> (res: State<T>)
        where
            F: Fn(Y) -> T,
        requires
            self matches State::Yielded(v) ==> f.requires((v,)),
        ensures
            match self {
                State::Yielded(v) => res matches State::Yielded(w) && f.ensures((v,), w),
                State::Completed => res is Completed,
            },
            forall|g: spec_fn(Y) -> T|
                (forall|y: Y, t: T| #[trigger] f.ensures((y,), t) ==> t == g(y)) ==> res
                    == #[trigger] self.map_spec(g),
    {
        match self {
            State::Yielded(val) => State::Yielded(f(val)),
            State::Completed => State::Completed,
        }
    }

    /// The state an iterator's `next` result stands for.
    pub open spec fn spec_from_next(next: Option<Y>) -> State<Y> {
        match next {
            Some(v) => State::Yielded(v),
            None => State::Completed,
        }
    }

    /// Turn the result of an iterator's `next` into a stream state: an item is yielded, and
    /// the end of the iterator completes the stream.
    pub fn from_next(next: Option<Y>) -> (s: State<Y>)
        ensures
            s == State::spec_from_next(next),
    {
        match next {
            Some(val) => State::Yielded(val),
            None => State::Completed,
        }
    }
}

/// Mapping the identity over a state leaves it as it was.
pub proof fn lemma_map_identity<Y>(s: State<Y>)
    ensures
        s.map_spec(|y: Y| y) == s,
{
}

/// Mapping `f` and then `g` is mapping their composition.
pub proof fn lemma_map_composition<Y, T, U>(s: State<Y>, f: spec_fn(Y) -> T, g: spec_fn(T) -> U)
    ensures
        s.map_spec(f).map_spec(g) == s.map_spec(|y: Y| g(f(y))),
{
}

/// Where a fold stands after taking one chunk: still going, or finished with its result.
pub enum FoldStep<M, Acc> {
    /// The fold goes on in this state.
    Continue(M),
    /// The stream completed; this is the result.
    Done(Acc),
}

/// The state of a fold over the values of a stream: the accumulator, the folding function, and
/// (as ghost state) the values received so far with the accumulator after each of them.
pub struct Folding<T, Acc, F> {
    acc: Acc,
    f: F,
    received: Ghost<Seq<T>>,
    history: Ghost<Seq<Acc>>,
}

impl<T, Acc, F> Folding<T, Acc, F> where F: Fn(Acc, T) -> Acc {
    /// The current accumulator.
    pub closed spec fn accumulator(&self) -> Acc {
        self.acc
    }

    /// The folding function.
    pub closed spec fn function(&self) -> F {
        self.f
    }

    /// The values received so far, in order.
    pub closed spec fn received(&self) -> Seq<T> {
        self.received@
    }

    /// The initial accumulator followed by the accumulator after each received value.
    pub closed spec fn history(&self) -> Seq<Acc> {
        self.history@
    }

    /// The accumulator is the fold of the function over the received values: each accumulator
    /// in the history is what the function returned on the one before and the next value.
    pub open spec fn wf(&self) -> bool {
        &&& self.history().len() == self.received().len() + 1
        &&& self.history().last() == self.accumulator()
        &&& forall|i: int|
            0 <= i < self.received().len() ==> self.function().ensures(
                (self.history()[i], self.received()[i]),
                #[trigger] self.history()[i + 1],
            )
    }

    /// Start a fold from `init`.
    pub fn new(init: Acc, f: F) -> (r: Self)
        ensures
            r.wf(),
            r.function() == f,
            r.received() == Seq::<T>::empty(),
            r.history() == seq![init],
    {
        let ghost first: Seq<Acc> = seq![init];
        Folding { acc: init, f, received: Ghost(Seq::empty()), history: Ghost(first) }
    }

    /// Take the next chunk of the stream: a yielded value is folded into the accumulator, and
    /// completion ends the fold with the accumulator as its result.
    pub fn feed(self, chunk: State<T>) -> (r: FoldStep<Self, Acc>)
        requires
            self.wf(),
            chunk matches State::Yielded(v) ==> self.function().requires((self.accumulator(), v)),
        ensures
            match chunk {
                State::Yielded(v) => r matches FoldStep::Continue(next) && {
                    &&& next.wf()
                    &&& next.function() == self.function()
                    &&& next.received() == self.received().push(v)
                    &&& next.history() == self.history().push(next.accumulator())
                    &&& self.function().ensures((self.accumulator(), v), next.accumulator())
                },
                State::Completed => r == FoldStep::<Self, Acc>::Done(self.accumulator()),
            },
    {
        let Folding { acc, f, received, history } = self;
        match chunk {
            State::Yielded(v) => {
                let ghost value = v;
                let ghost prev = acc;
                let next = f(acc, v);
                let ghost new_history = history@.push(next);
                let ghost new_received = received@.push(value);
                proof {
                    assert forall|i: int| 0 <= i < new_received.len() implies f.ensures(
                        (new_history[i], new_received[i]),
                        #[trigger] new_history[i + 1],
                    ) by {
                        if i < received@.len() {
                            assert(new_history[i] == history@[i]);
                            assert(new_history[i + 1] == history@[i + 1]);
                        } else {
                            assert(new_history[i] == prev);
                        }
                    }
                }
                FoldStep::Continue(
                    Folding {
                        acc: next,
                        f,
                        received: Ghost(new_received),
                        history: Ghost(new_history),
                    },
                )
            },
            State::Completed => FoldStep::Done(acc),
        }
    }
}

/// When the folding function computes `g`, a fold's accumulator is the left fold of `g` over the
/// values received, starting from the initial accumulator.
pub proof fn lemma_fold_is_fold_left<T, Acc, F>(m: Folding<T, Acc, F>, g: spec_fn(Acc, T) -> Acc)
    where
        F: Fn(Acc, T) -> Acc,
    requires
        m.wf(),
        forall|a: Acc, t: T, r: Acc| #[trigger] m.function().ensures((a, t), r) ==> r == g(a, t),
    ensures
        m.accumulator() == m.received().fold_left(m.history()[0], g),
{
    lemma_history_folds(m.function(), m.history(), m.received(), g, m.received().len());
}

proof fn lemma_history_folds<T, Acc, F>(
    f: F,
    history: Seq<Acc>,
    received: Seq<T>,
    g: spec_fn(Acc, T) -> Acc,
    n: nat,
)
    where
        F: Fn(Acc, T) -> Acc,
    requires
        history.len() == received.len() + 1,
        n <= received.len(),
        forall|i: int|
            0 <= i < received.len() ==> f.ensures(
                (history[i], received[i]),
                #[trigger] history[i + 1],
            ),
        forall|a: Acc, t: T, r: Acc| #[trigger] f.ensures((a, t), r) ==> r == g(a, t),
    ensures
        history[n as int] == received.take(n as int).fold_left(history[0], g),
    decreases n,
{
    if n > 0 {
        lemma_history_folds(f, history, received, g, (n - 1) as nat);
        let prefix = received.take(n as int);
        assert(prefix.drop_last() =~= received.take(n - 1));
        assert(prefix.last() == received[n - 1]);
        let k = n - 1;
        assert(f.ensures((history[k], received[k]), history[k + 1]));
        assert(k + 1 == n);
    } else {
        assert(received.take(0) =~= Seq::<T>::empty());
    }
}

} // verus!
