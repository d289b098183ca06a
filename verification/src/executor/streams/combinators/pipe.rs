//! A pipe from one stream into another, and the steps its asynchronous operations go through.
//!
//! The asynchronous operations of a pipe (reading from it, writing to it, and iterating it
//! until its input completes) alternate waiting on streams with decisions. Each operation is
//! described here as a machine: it is handed the outcome of the last thing it asked for (an
//! event) and answers with the next thing to do (an action), until it returns or finishes.

use vstd::prelude::*;

use async_mutex::Mutex;

use crate::executor::control_flow::State;
use crate::executor::streams::traits::{Peekable, Pushable};
use crate::executor::utils::new_mutex;
use crate::messaging::{Readable, Writable};

verus! {

/// A wrapper over two streams, one of which receives the other's output as input.
#[verifier::reject_recursive_types(I)]
#[verifier::reject_recursive_types(O)]
pub struct Pipe<I, O> {
    input: I,
    bottleneck: Mutex<()>,
    output: O,
}

impl<I, O> Pipe<I, O> {
    /// The stream written to.
    pub closed spec fn spec_input(&self) -> I {
        self.input
    }

    /// The stream read from.
    pub closed spec fn spec_output(&self) -> O {
        self.output
    }

    /// Connect the input to the output stream.
    pub fn pipe(input: I, output: O) -> (r: Self)
        ensures
            r.spec_input() == input,
            r.spec_output() == output,
    {
        Self { input, bottleneck: new_mutex(()), output }
    }

    /// The input stream.
    pub fn input(&self) -> (r: &I)
        ensures
            *r == self.spec_input(),
    {
        &self.input
    }

    /// The output stream.
    pub fn output(&self) -> (r: &O)
        ensures
            *r == self.spec_output(),
    {
        &self.output
    }

    /// The critical section guarding transfers from input to output.
    pub closed spec fn spec_bottleneck(&self) -> Mutex<()> {
        self.bottleneck
    }

    /// The critical section guarding transfers from input to output.
    pub fn bottleneck(&self) -> (r: &Mutex<()>)
        ensures
            *r == self.spec_bottleneck(),
    {
        &self.bottleneck
    }

    /// Take the pipe apart.
    pub fn into_parts(self) -> (r: (I, Mutex<()>, O))
        ensures
            r.0 == self.spec_input(),
            r.1 == self.spec_bottleneck(),
            r.2 == self.spec_output(),
    {
        let Self { input, bottleneck, output } = self;
        (input, bottleneck, output)
    }
}

impl<I, O> Readable for Pipe<I, O> where O: Readable {
    type ReadChunk = O::ReadChunk;
}

impl<I, O> Peekable for Pipe<I, O> where I: Send + Sync, O: Peekable {
    /// A pipe's peek may give what its output stream's peek may give.
    open spec fn may_peek(&self, peeked: Option<O::ReadChunk>) -> bool {
        self.spec_output().may_peek(peeked)
    }

    /// Try getting a value out of the output stream, but don't attempt to ferry anything from
    /// the input stream.
    fn peek(&self) -> Option<O::ReadChunk> {
        self.output.peek()
    }
}

impl<I, O> Writable for Pipe<I, O> where I: Writable {
    type WriteChunk = I::WriteChunk;
}

impl<I, O> Pushable for Pipe<I, O> where I: Pushable, O: Send + Sync {
    /// Pushing into a pipe may give what pushing into its input stream may give.
    open spec fn may_push(&self, chunk: I::WriteChunk, pushed: Result<(), I::WriteChunk>) -> bool {
        self.spec_input().may_push(chunk, pushed)
    }

    /// Push into the input stream.
    fn push(&self, chunk: I::WriteChunk) -> Result<(), I::WriteChunk> {
        self.input.push(chunk)
    }
}

// ------------------------------------------------------------------------------------------
// Reading from a pipe.
// ------------------------------------------------------------------------------------------

/// What a read from a pipe asks for next. `C` is the chunk ferried from input to output, `R`
/// the chunk read from the output.
pub enum ReadOneAction<C, R> {
    /// Try to take a chunk already waiting in the output stream.
    PeekOutput,
    /// Try to enter the critical section, without waiting.
    TryLock,
    /// Try to take a chunk already waiting in the input stream.
    PeekInput,
    /// Wait to write this chunk into the output stream.
    WriteOutput(C),
    /// Leave the critical section if it was entered, and wait for a chunk of the output stream.
    ReadOutput,
    /// The read is over, with this chunk.
    Return(R),
}

/// The outcome of what a read from a pipe asked for.
pub enum ReadOneEvent<C, R> {
    /// What peeking the output stream gave.
    OutputPeeked(Option<R>),
    /// Whether the critical section was entered.
    LockTried(bool),
    /// What peeking the input stream gave.
    InputPeeked(Option<C>),
    /// The chunk was written into the output stream.
    OutputWritten,
    /// The chunk read from the output stream.
    OutputRead(R),
}

/// Which outcome a read from a pipe waits for.
pub enum ReadOneStage {
    /// The outcome of peeking the output.
    PeekingOutput,
    /// The outcome of trying the lock.
    Locking,
    /// The outcome of peeking the input.
    PeekingInput,
    /// The end of a write into the output.
    WritingOutput,
    /// The chunk read from the output.
    ReadingOutput,
    /// Nothing: the read is over.
    Returned,
}

/// The stage a read from a pipe moves to, and the action it asks for, on each outcome.
pub open spec fn read_one_transition<C, R>(event: ReadOneEvent<C, R>) -> (
    ReadOneStage,
    ReadOneAction<C, R>,
) {
    match event {
        ReadOneEvent::OutputPeeked(Some(chunk)) => (ReadOneStage::Returned, ReadOneAction::Return(chunk)),
        ReadOneEvent::OutputPeeked(None) => (ReadOneStage::Locking, ReadOneAction::TryLock),
        ReadOneEvent::LockTried(true) => (ReadOneStage::PeekingInput, ReadOneAction::PeekInput),
        ReadOneEvent::LockTried(false) => (ReadOneStage::ReadingOutput, ReadOneAction::ReadOutput),
        ReadOneEvent::InputPeeked(Some(chunk)) => (
            ReadOneStage::WritingOutput,
            ReadOneAction::WriteOutput(chunk),
        ),
        ReadOneEvent::InputPeeked(None) => (ReadOneStage::ReadingOutput, ReadOneAction::ReadOutput),
        ReadOneEvent::OutputWritten => (ReadOneStage::PeekingInput, ReadOneAction::PeekInput),
        ReadOneEvent::OutputRead(chunk) => (ReadOneStage::Returned, ReadOneAction::Return(chunk)),
    }
}

/// A read from a pipe: first optimistically take a chunk already in the output stream; if there
/// is none, and the critical section is free, ferry every chunk waiting in the input stream into
/// the output stream; then wait for a chunk of the output stream. The chunks ferried so far are
/// kept as ghost state.
pub struct ReadOne<C, R> {
    stage: ReadOneStage,
    entered: Ghost<bool>,
    ferried: Ghost<Seq<C>>,
    returned: Ghost<Option<R>>,
}

impl<C, R> ReadOne<C, R> {
    /// Which outcome the read waits for.
    pub closed spec fn stage(&self) -> ReadOneStage {
        self.stage
    }

    /// Whether the read entered the critical section.
    pub closed spec fn entered(&self) -> bool {
        self.entered@
    }

    /// The chunks taken from the input and written into the output, in order.
    pub closed spec fn ferried(&self) -> Seq<C> {
        self.ferried@
    }

    /// The chunk the read returned, once it has.
    pub closed spec fn returned(&self) -> Option<R> {
        self.returned@
    }

    /// Whether `event` is the outcome the read waits for.
    pub open spec fn accepts(&self, event: ReadOneEvent<C, R>) -> bool {
        match event {
            ReadOneEvent::OutputPeeked(_) => self.stage() == ReadOneStage::PeekingOutput,
            ReadOneEvent::LockTried(_) => self.stage() == ReadOneStage::Locking,
            ReadOneEvent::InputPeeked(_) => self.stage() == ReadOneStage::PeekingInput,
            ReadOneEvent::OutputWritten => self.stage() == ReadOneStage::WritingOutput,
            ReadOneEvent::OutputRead(_) => self.stage() == ReadOneStage::ReadingOutput,
        }
    }

    /// The read has returned exactly when it has a result, and it only touches the input
    /// inside the critical section.
    pub open spec fn wf(&self) -> bool {
        &&& (self.stage() == ReadOneStage::Returned) <==> (self.returned() is Some)
        &&& (self.stage() == ReadOneStage::PeekingInput || self.stage()
            == ReadOneStage::WritingOutput || self.ferried().len() > 0) ==> self.entered()
    }

    /// Begin a read: the first thing to do is to peek the output stream.
    pub fn start() -> (r: (Self, ReadOneAction<C, R>))
        ensures
            r.0.wf(),
            r.0.stage() == ReadOneStage::PeekingOutput,
            r.0.ferried() == Seq::<C>::empty(),
            !r.0.entered(),
            r.1 is PeekOutput,
    {
        (
            ReadOne {
                stage: ReadOneStage::PeekingOutput,
                entered: Ghost(false),
                ferried: Ghost(Seq::empty()),
                returned: Ghost(None),
            },
            ReadOneAction::PeekOutput,
        )
    }

    /// Take the outcome of the last action and decide the next one.
    pub fn step(self, event: ReadOneEvent<C, R>) -> (r: (Self, ReadOneAction<C, R>))
        requires
            self.wf(),
            self.accepts(event),
        ensures
            r.0.wf(),
            match event {
                ReadOneEvent::OutputPeeked(Some(chunk)) => {
                    &&& r.1 == ReadOneAction::<C, R>::Return(chunk)
                    &&& r.0.stage() == ReadOneStage::Returned
                    &&& r.0.returned() == Some(chunk)
                },
                ReadOneEvent::OutputPeeked(None) => {
                    &&& r.1 is TryLock
                    &&& r.0.stage() == ReadOneStage::Locking
                },
                ReadOneEvent::LockTried(true) => {
                    &&& r.1 is PeekInput
                    &&& r.0.stage() == ReadOneStage::PeekingInput
                },
                ReadOneEvent::LockTried(false) => {
                    &&& r.1 is ReadOutput
                    &&& r.0.stage() == ReadOneStage::ReadingOutput
                },
                ReadOneEvent::InputPeeked(Some(chunk)) => {
                    &&& r.1 == ReadOneAction::<C, R>::WriteOutput(chunk)
                    &&& r.0.stage() == ReadOneStage::WritingOutput
                },
                ReadOneEvent::InputPeeked(None) => {
                    &&& r.1 is ReadOutput
                    &&& r.0.stage() == ReadOneStage::ReadingOutput
                },
                ReadOneEvent::OutputWritten => {
                    &&& r.1 is PeekInput
                    &&& r.0.stage() == ReadOneStage::PeekingInput
                },
                ReadOneEvent::OutputRead(chunk) => {
                    &&& r.1 == ReadOneAction::<C, R>::Return(chunk)
                    &&& r.0.stage() == ReadOneStage::Returned
                    &&& r.0.returned() == Some(chunk)
                },
            },
            r.0.ferried() == match event {
                ReadOneEvent::InputPeeked(Some(chunk)) => self.ferried().push(chunk),
                _ => self.ferried(),
            },
            r.0.entered() == (self.entered() || event == ReadOneEvent::<C, R>::LockTried(true)),
            (r.0.stage(), r.1) == read_one_transition(event),
    {
        let mut next = self;
        let action = match event {
            ReadOneEvent::OutputPeeked(Some(chunk)) => {
                next.stage = ReadOneStage::Returned;
                next.returned = Ghost(Some(chunk));
                ReadOneAction::Return(chunk)
            },
            ReadOneEvent::OutputPeeked(None) => {
                next.stage = ReadOneStage::Locking;
                ReadOneAction::TryLock
            },
            ReadOneEvent::LockTried(acquired) => if acquired {
                next.stage = ReadOneStage::PeekingInput;
                next.entered = Ghost(true);
                ReadOneAction::PeekInput
            } else {
                next.stage = ReadOneStage::ReadingOutput;
                ReadOneAction::ReadOutput
            },
            ReadOneEvent::InputPeeked(Some(chunk)) => {
                next.stage = ReadOneStage::WritingOutput;
                next.ferried = Ghost(next.ferried@.push(chunk));
                ReadOneAction::WriteOutput(chunk)
            },
            ReadOneEvent::InputPeeked(None) => {
                next.stage = ReadOneStage::ReadingOutput;
                ReadOneAction::ReadOutput
            },
            ReadOneEvent::OutputWritten => {
                next.stage = ReadOneStage::PeekingInput;
                ReadOneAction::PeekInput
            },
            ReadOneEvent::OutputRead(chunk) => {
                next.stage = ReadOneStage::Returned;
                next.returned = Ghost(Some(chunk));
                ReadOneAction::Return(chunk)
            },
        };
        (next, action)
    }
}

// ------------------------------------------------------------------------------------------
// Writing to a pipe.
// ------------------------------------------------------------------------------------------

/// What a write to a pipe asks for next. `W` is the chunk written, `C` the chunk ferried from
/// input to output.
pub enum WriteOneAction<W, C> {
    /// Wait to write this chunk into the input stream.
    WriteInput(W),
    /// Wait until the critical section is free, entering it and leaving it again at once: the
    /// section is not held while ferrying.
    Lock,
    /// Try to take a chunk already waiting in the input stream.
    PeekInput,
    /// Wait to write this chunk into the output stream.
    WriteOutput(C),
    /// The write is over.
    Finish,
}

/// The outcome of what a write to a pipe asked for.
pub enum WriteOneEvent<C> {
    /// The chunk was written into the input stream.
    InputWritten,
    /// The critical section was entered and left again.
    Locked,
    /// What peeking the input stream gave.
    InputPeeked(Option<C>),
    /// The chunk was written into the output stream.
    OutputWritten,
}

/// Which outcome a write to a pipe waits for.
pub enum WriteOneStage {
    /// The end of the write into the input.
    WritingInput,
    /// The critical section.
    Locking,
    /// The outcome of peeking the input.
    PeekingInput,
    /// The end of a write into the output.
    WritingOutput,
    /// Nothing: the write is over.
    Finished,
}

/// The stage a write to a pipe moves to, and the action it asks for, on each outcome.
pub open spec fn write_one_transition<W, C>(event: WriteOneEvent<C>) -> (
    WriteOneStage,
    WriteOneAction<W, C>,
) {
    match event {
        WriteOneEvent::InputWritten => (WriteOneStage::Locking, WriteOneAction::Lock),
        WriteOneEvent::Locked => (WriteOneStage::PeekingInput, WriteOneAction::PeekInput),
        WriteOneEvent::InputPeeked(Some(chunk)) => (
            WriteOneStage::WritingOutput,
            WriteOneAction::WriteOutput(chunk),
        ),
        WriteOneEvent::InputPeeked(None) => (WriteOneStage::Finished, WriteOneAction::Finish),
        WriteOneEvent::OutputWritten => (WriteOneStage::PeekingInput, WriteOneAction::PeekInput),
    }
}

/// A write to a pipe: first wait to write the chunk into the input stream; then wait until the
/// critical section is free (it is left again at once, not held while ferrying), and ferry
/// every chunk waiting in the input stream into the output stream. The chunks ferried so far
/// are kept as ghost state.
pub struct WriteOne<W, C> {
    stage: WriteOneStage,
    chunk: Ghost<W>,
    ferried: Ghost<Seq<C>>,
}

impl<W, C> WriteOne<W, C> {
    /// Which outcome the write waits for.
    pub closed spec fn stage(&self) -> WriteOneStage {
        self.stage
    }

    /// The chunk being written.
    pub closed spec fn chunk(&self) -> W {
        self.chunk@
    }

    /// The chunks taken from the input and written into the output, in order.
    pub closed spec fn ferried(&self) -> Seq<C> {
        self.ferried@
    }

    /// Whether `event` is the outcome the write waits for.
    pub open spec fn accepts(&self, event: WriteOneEvent<C>) -> bool {
        match event {
            WriteOneEvent::InputWritten => self.stage() == WriteOneStage::WritingInput,
            WriteOneEvent::Locked => self.stage() == WriteOneStage::Locking,
            WriteOneEvent::InputPeeked(_) => self.stage() == WriteOneStage::PeekingInput,
            WriteOneEvent::OutputWritten => self.stage() == WriteOneStage::WritingOutput,
        }
    }

    /// Begin writing `chunk`: the first thing to do is to write it into the input stream.
    pub fn start(chunk: W) -> (r: (Self, WriteOneAction<W, C>))
        ensures
            r.0.stage() == WriteOneStage::WritingInput,
            r.0.ferried() == Seq::<C>::empty(),
            r.0.chunk() == chunk,
            r.1 == WriteOneAction::<W, C>::WriteInput(chunk),
    {
        let ghost written = chunk;
        (
            WriteOne {
                stage: WriteOneStage::WritingInput,
                chunk: Ghost(written),
                ferried: Ghost(Seq::empty()),
            },
            WriteOneAction::WriteInput(chunk),
        )
    }

    /// Take the outcome of the last action and decide the next one.
    pub fn step(self, event: WriteOneEvent<C>) -> (r: (Self, WriteOneAction<W, C>))
        requires
            self.accepts(event),
        ensures
            match event {
                WriteOneEvent::InputWritten => {
                    &&& r.1 is Lock
                    &&& r.0.stage() == WriteOneStage::Locking
                },
                WriteOneEvent::Locked => {
                    &&& r.1 is PeekInput
                    &&& r.0.stage() == WriteOneStage::PeekingInput
                },
                WriteOneEvent::InputPeeked(Some(chunk)) => {
                    &&& r.1 == WriteOneAction::<W, C>::WriteOutput(chunk)
                    &&& r.0.stage() == WriteOneStage::WritingOutput
                },
                WriteOneEvent::InputPeeked(None) => {
                    &&& r.1 is Finish
                    &&& r.0.stage() == WriteOneStage::Finished
                },
                WriteOneEvent::OutputWritten => {
                    &&& r.1 is PeekInput
                    &&& r.0.stage() == WriteOneStage::PeekingInput
                },
            },
            r.0.chunk() == self.chunk(),
            (r.0.stage(), r.1) == write_one_transition::<W, C>(event),
            r.0.ferried() == match event {
                WriteOneEvent::InputPeeked(Some(chunk)) => self.ferried().push(chunk),
                _ => self.ferried(),
            },
    {
        let mut next = self;
        let action = match event {
            WriteOneEvent::InputWritten => {
                next.stage = WriteOneStage::Locking;
                WriteOneAction::Lock
            },
            WriteOneEvent::Locked => {
                next.stage = WriteOneStage::PeekingInput;
                WriteOneAction::PeekInput
            },
            WriteOneEvent::InputPeeked(Some(chunk)) => {
                next.stage = WriteOneStage::WritingOutput;
                next.ferried = Ghost(next.ferried@.push(chunk));
                WriteOneAction::WriteOutput(chunk)
            },
            WriteOneEvent::InputPeeked(None) => {
                next.stage = WriteOneStage::Finished;
                WriteOneAction::Finish
            },
            WriteOneEvent::OutputWritten => {
                next.stage = WriteOneStage::PeekingInput;
                WriteOneAction::PeekInput
            },
        };
        (next, action)
    }
}

// ------------------------------------------------------------------------------------------
// Iterating a pipe.
// ------------------------------------------------------------------------------------------

/// What iterating a pipe asks for next.
pub enum IterateAction<T> {
    /// Wait until the critical section is free, entering it and leaving it again at once: the
    /// section is not held while ferrying.
    Lock,
    /// Wait for a chunk of the input stream.
    ReadInput,
    /// Wait to write this chunk into the output stream.
    WriteOutput(State<T>),
    /// The iteration is over.
    Finish,
}

/// The outcome of what iterating a pipe asked for.
pub enum IterateEvent<T> {
    /// The critical section was entered and left again.
    Locked,
    /// The chunk read from the input stream.
    InputRead(State<T>),
    /// The chunk was written into the output stream.
    OutputWritten,
}

/// Which outcome iterating a pipe waits for.
pub enum IterateStage {
    /// The critical section.
    Locking,
    /// A chunk of the input.
    ReadingInput,
    /// The end of writing a yielded value into the output.
    Forwarding,
    /// The end of writing the completion into the output.
    Closing,
    /// Nothing: the iteration is over.
    Finished,
}

/// Iterating a pipe: wait until the critical section is free (it is left again at once, not held
/// while ferrying), then ferry every chunk of the input stream into the output stream until the
/// input completes; the completion is ferried too. The chunks written so far are kept as ghost
/// state.
pub struct Iterate<T> {
    stage: IterateStage,
    forwarded: Ghost<Seq<State<T>>>,
}

impl<T> Iterate<T> {
    /// Which outcome the iteration waits for.
    pub closed spec fn stage(&self) -> IterateStage {
        self.stage
    }

    /// The chunks read from the input and written into the output, in order.
    pub closed spec fn forwarded(&self) -> Seq<State<T>> {
        self.forwarded@
    }

    /// Every chunk forwarded but the last is a yielded value, and the last is the completion
    /// exactly when the iteration is closing or over.
    pub open spec fn wf(&self) -> bool {
        &&& forall|i: int|
            0 <= i < self.forwarded().len() - 1 ==> #[trigger] self.forwarded()[i] is Yielded
        &&& (self.forwarded().len() > 0 && self.forwarded().last() is Completed) <==> (
        self.stage() == IterateStage::Closing || self.stage() == IterateStage::Finished)
        &&& self.stage() == IterateStage::ReadingInput || self.stage() == IterateStage::Locking
            ==> forall|i: int|
            0 <= i < self.forwarded().len() ==> #[trigger] self.forwarded()[i] is Yielded
    }

    /// Whether `event` is the outcome the iteration waits for.
    pub open spec fn accepts(&self, event: IterateEvent<T>) -> bool {
        match event {
            IterateEvent::Locked => self.stage() == IterateStage::Locking,
            IterateEvent::InputRead(_) => self.stage() == IterateStage::ReadingInput,
            IterateEvent::OutputWritten => self.stage() == IterateStage::Forwarding
                || self.stage() == IterateStage::Closing,
        }
    }

    /// Begin iterating: the first thing to do is to wait until the critical section is free.
    pub fn start() -> (r: (Self, IterateAction<T>))
        ensures
            r.0.wf(),
            r.0.stage() == IterateStage::Locking,
            r.0.forwarded() == Seq::<State<T>>::empty(),
            r.1 is Lock,
    {
        let iterate = Iterate { stage: IterateStage::Locking, forwarded: Ghost(Seq::empty()) };
        (iterate, IterateAction::Lock)
    }

    /// Take the outcome of the last action and decide the next one.
    pub fn step(self, event: IterateEvent<T>) -> (r: (Self, IterateAction<T>))
        requires
            self.wf(),
            self.accepts(event),
        ensures
            r.0.wf(),
            match event {
                IterateEvent::Locked => {
                    &&& r.1 is ReadInput
                    &&& r.0.stage() == IterateStage::ReadingInput
                    &&& r.0.forwarded() == self.forwarded()
                },
                IterateEvent::InputRead(chunk) => {
                    &&& r.1 == IterateAction::WriteOutput(chunk)
                    &&& r.0.stage() == if chunk is Completed {
                        IterateStage::Closing
                    } else {
                        IterateStage::Forwarding
                    }
                    &&& r.0.forwarded() == self.forwarded().push(chunk)
                },
                IterateEvent::OutputWritten => {
                    &&& if self.stage() == IterateStage::Closing {
                        &&& r.1 is Finish
                        &&& r.0.stage() == IterateStage::Finished
                    } else {
                        &&& r.1 is ReadInput
                        &&& r.0.stage() == IterateStage::ReadingInput
                    }
                    &&& r.0.forwarded() == self.forwarded()
                },
            },
    {
        let mut next = self;
        let action = match event {
            IterateEvent::Locked => {
                next.stage = IterateStage::ReadingInput;
                IterateAction::ReadInput
            },
            IterateEvent::InputRead(chunk) => {
                let ghost before = next.forwarded@;
                next.stage = match &chunk {
                    State::Yielded(_) => IterateStage::Forwarding,
                    State::Completed => IterateStage::Closing,
                };
                next.forwarded = Ghost(before.push(chunk));
                proof {
                    let after = next.forwarded@;
                    assert(after.last() == chunk);
                    assert forall|i: int| 0 <= i < after.len() - 1 implies #[trigger] after[i]
                        is Yielded by {
                        assert(after[i] == before[i]);
                    }
                }
                IterateAction::WriteOutput(chunk)
            },
            IterateEvent::OutputWritten => match next.stage {
                IterateStage::Closing => {
                    next.stage = IterateStage::Finished;
                    IterateAction::Finish
                },
                _ => {
                    next.stage = IterateStage::ReadingInput;
                    IterateAction::ReadInput
                },
            },
        };
        (next, action)
    }
}

} // verus!
