//! A pipe between two first-in-first-out streams is itself first-in-first-out.
//!
//! The streams at both ends of a pipe are modelled as queues: the chunks written into the input
//! and not yet taken out of it, and the chunks written into the output and not yet read. A
//! single task drives the pipe's read and write machines against these queues (so the critical
//! section is always free); the chunks it reads are then a prefix of the chunks it wrote, in
//! order, and a read never waits as long as no more reads than writes were made.

use vstd::prelude::*;

use super::pipe::{
    read_one_transition, write_one_transition, ReadOneAction, ReadOneEvent, WriteOneAction,
    WriteOneEvent,
};

verus! {

/// The input queue and the output queue.
pub type Queues<T> = (Seq<T>, Seq<T>);

/// How first-in-first-out streams answer what a read from the pipe asks for; `None` where the
/// read would wait forever (reading an empty output) or is over.
pub open spec fn read_outcome<T>(action: ReadOneAction<T, T>, q: Queues<T>) -> Option<
    (ReadOneEvent<T, T>, Queues<T>),
> {
    match action {
        ReadOneAction::PeekOutput => Some(
            if q.1.len() > 0 {
                (ReadOneEvent::OutputPeeked(Some(q.1[0])), (q.0, q.1.drop_first()))
            } else {
                (ReadOneEvent::OutputPeeked(None), q)
            },
        ),
        ReadOneAction::TryLock => Some((ReadOneEvent::LockTried(true), q)),
        ReadOneAction::PeekInput => Some(
            if q.0.len() > 0 {
                (ReadOneEvent::InputPeeked(Some(q.0[0])), (q.0.drop_first(), q.1))
            } else {
                (ReadOneEvent::InputPeeked(None), q)
            },
        ),
        ReadOneAction::WriteOutput(chunk) => Some((ReadOneEvent::OutputWritten, (q.0, q.1.push(chunk)))),
        ReadOneAction::ReadOutput => if q.1.len() > 0 {
            Some((ReadOneEvent::OutputRead(q.1[0]), (q.0, q.1.drop_first())))
        } else {
            None
        },
        ReadOneAction::Return(_) => None,
    }
}

/// Run a read from the pipe, from `action` on, for at most `fuel` steps: the chunk returned and
/// the queues afterwards, or `None` if it does not return.
pub open spec fn drive_read<T>(action: ReadOneAction<T, T>, q: Queues<T>, fuel: nat) -> Option<
    (T, Queues<T>),
>
    decreases fuel,
{
    match action {
        ReadOneAction::Return(chunk) => Some((chunk, q)),
        _ => if fuel == 0 {
            None
        } else {
            match read_outcome(action, q) {
                Some((event, next)) => drive_read(read_one_transition(event).1, next, (fuel - 1) as nat),
                None => None,
            }
        },
    }
}

/// How first-in-first-out streams answer what a write to the pipe asks for; `None` once the
/// write is over.
pub open spec fn write_outcome<T>(action: WriteOneAction<T, T>, q: Queues<T>) -> Option<
    (WriteOneEvent<T>, Queues<T>),
> {
    match action {
        WriteOneAction::WriteInput(chunk) => Some((WriteOneEvent::InputWritten, (q.0.push(chunk), q.1))),
        WriteOneAction::Lock => Some((WriteOneEvent::Locked, q)),
        WriteOneAction::PeekInput => Some(
            if q.0.len() > 0 {
                (WriteOneEvent::InputPeeked(Some(q.0[0])), (q.0.drop_first(), q.1))
            } else {
                (WriteOneEvent::InputPeeked(None), q)
            },
        ),
        WriteOneAction::WriteOutput(chunk) => Some((WriteOneEvent::OutputWritten, (q.0, q.1.push(chunk)))),
        WriteOneAction::Finish => None,
    }
}

/// Run a write to the pipe, from `action` on, for at most `fuel` steps: the queues once it
/// finishes, or `None` if it does not.
pub open spec fn drive_write<T>(action: WriteOneAction<T, T>, q: Queues<T>, fuel: nat) -> Option<
    Queues<T>,
>
    decreases fuel,
{
    match action {
        WriteOneAction::Finish => Some(q),
        _ => if fuel == 0 {
            None
        } else {
            match write_outcome(action, q) {
                Some((event, next)) => drive_write(
                    write_one_transition::<T, T>(event).1,
                    next,
                    (fuel - 1) as nat,
                ),
                None => None,
            }
        },
    }
}

/// One operation of a task on a pipe.
pub enum PipeOp<T> {
    /// `write_one` of this chunk.
    Write(T),
    /// `push` of this chunk, which the input stream accepts.
    Push(T),
    /// `read_one`.
    Read,
}

/// Steps enough for any one operation on these queues.
pub open spec fn op_fuel<T>(q: Queues<T>) -> nat {
    2 * q.0.len() + 8
}

/// The chunks written or pushed, in order.
pub open spec fn written<T>(ops: Seq<PipeOp<T>>) -> Seq<T>
    decreases ops.len(),
{
    if ops.len() == 0 {
        Seq::empty()
    } else {
        match ops.last() {
            PipeOp::Write(chunk) => written(ops.drop_last()).push(chunk),
            PipeOp::Push(chunk) => written(ops.drop_last()).push(chunk),
            PipeOp::Read => written(ops.drop_last()),
        }
    }
}

/// How many reads there are.
pub open spec fn read_count<T>(ops: Seq<PipeOp<T>>) -> nat
    decreases ops.len(),
{
    if ops.len() == 0 {
        0
    } else {
        match ops.last() {
            PipeOp::Read => read_count(ops.drop_last()) + 1,
            _ => read_count(ops.drop_last()),
        }
    }
}

/// Run the operations in order on a pipe whose streams start empty: the chunks read, in
/// order, and the queues afterwards; `None` if an operation does not end.
pub open spec fn run_pipe<T>(ops: Seq<PipeOp<T>>) -> Option<(Seq<T>, Queues<T>)>
    decreases ops.len(),
{
    if ops.len() == 0 {
        Some((Seq::empty(), (Seq::empty(), Seq::empty())))
    } else {
        match run_pipe(ops.drop_last()) {
            None => None,
            Some((reads, q)) => match ops.last() {
                PipeOp::Write(chunk) => match drive_write(WriteOneAction::WriteInput(chunk), q, op_fuel(q)) {
                    Some(after) => Some((reads, after)),
                    None => None,
                },
                PipeOp::Push(chunk) => Some((reads, (q.0.push(chunk), q.1))),
                PipeOp::Read => match drive_read(ReadOneAction::PeekOutput, q, op_fuel(q)) {
                    Some((chunk, after)) => Some((reads.push(chunk), after)),
                    None => None,
                },
            },
        }
    }
}

/// Ferrying during a read moves the whole input behind the output, one chunk per two steps.
proof fn lemma_read_ferries<T>(q: Queues<T>, fuel: nat)
    requires
        fuel > 2 * q.0.len(),
    ensures
        drive_read(ReadOneAction::PeekInput, q, fuel) == drive_read(
            ReadOneAction::<T, T>::ReadOutput,
            (Seq::<T>::empty(), q.1 + q.0),
            (fuel - 2 * q.0.len() - 1) as nat,
        ),
    decreases q.0.len(),
{
    if q.0.len() == 0 {
        assert(q.1 + q.0 =~= q.1);
        assert(q.0 =~= Seq::<T>::empty());
    } else {
        let chunk = q.0[0];
        let next: Queues<T> = (q.0.drop_first(), q.1.push(chunk));
        assert(drive_read(ReadOneAction::<T, T>::WriteOutput(chunk), (q.0.drop_first(), q.1), (fuel - 1) as nat)
            == drive_read(ReadOneAction::<T, T>::PeekInput, next, (fuel - 2) as nat));
        lemma_read_ferries(next, (fuel - 2) as nat);
        assert(next.1 + next.0 =~= q.1 + q.0);
    }
}

/// A read on queues that hold a chunk between them returns the first chunk of the output
/// followed by the input, and leaves the rest.
pub proof fn lemma_read_takes_first<T>(q: Queues<T>)
    requires
        q.0.len() + q.1.len() > 0,
    ensures
        drive_read(ReadOneAction::PeekOutput, q, op_fuel(q)) matches Some((chunk, after)) && seq![
            chunk,
        ] + after.1 + after.0 == q.1 + q.0,
{
    let fuel = op_fuel(q);
    if q.1.len() > 0 {
        let after: Queues<T> = (q.0, q.1.drop_first());
        assert(drive_read(ReadOneAction::PeekOutput, q, fuel) == drive_read(
            ReadOneAction::<T, T>::Return(q.1[0]),
            after,
            (fuel - 1) as nat,
        ));
        assert(seq![q.1[0]] + after.1 =~= q.1);
    } else {
        assert(drive_read(ReadOneAction::PeekOutput, q, fuel) == drive_read(
            ReadOneAction::<T, T>::TryLock,
            q,
            (fuel - 1) as nat,
        ));
        assert(drive_read(ReadOneAction::<T, T>::TryLock, q, (fuel - 1) as nat) == drive_read(
            ReadOneAction::<T, T>::PeekInput,
            q,
            (fuel - 2) as nat,
        ));
        lemma_read_ferries(q, (fuel - 2) as nat);
        let moved: Queues<T> = (Seq::<T>::empty(), q.1 + q.0);
        let rest = (fuel - 2 - 2 * q.0.len() - 1) as nat;
        assert(moved.1.len() > 0);
        let after: Queues<T> = (moved.0, moved.1.drop_first());
        assert(drive_read(ReadOneAction::<T, T>::ReadOutput, moved, rest) == drive_read(
            ReadOneAction::<T, T>::Return(moved.1[0]),
            after,
            (rest - 1) as nat,
        ));
        assert(seq![moved.1[0]] + after.1 + after.0 =~= moved.1);
    }
}

/// Ferrying during a write moves the whole input behind the output, then finishes.
proof fn lemma_write_ferries<T>(q: Queues<T>, fuel: nat)
    requires
        fuel > 2 * q.0.len(),
    ensures
        drive_write(WriteOneAction::PeekInput, q, fuel) == Some((Seq::<T>::empty(), q.1 + q.0)),
    decreases q.0.len(),
{
    if q.0.len() == 0 {
        assert(q.1 + q.0 =~= q.1);
        assert(q.0 =~= Seq::<T>::empty());
        assert(drive_write(WriteOneAction::<T, T>::PeekInput, q, fuel) == drive_write(
            WriteOneAction::<T, T>::Finish,
            q,
            (fuel - 1) as nat,
        ));
    } else {
        let chunk = q.0[0];
        let next: Queues<T> = (q.0.drop_first(), q.1.push(chunk));
        assert(drive_write(WriteOneAction::<T, T>::PeekInput, q, fuel) == drive_write(
            WriteOneAction::<T, T>::WriteOutput(chunk),
            (q.0.drop_first(), q.1),
            (fuel - 1) as nat,
        ));
        assert(drive_write(WriteOneAction::<T, T>::WriteOutput(chunk), (q.0.drop_first(), q.1), (fuel - 1) as nat)
            == drive_write(WriteOneAction::<T, T>::PeekInput, next, (fuel - 2) as nat));
        lemma_write_ferries(next, (fuel - 2) as nat);
        assert(next.1 + next.0 =~= q.1 + q.0);
    }
}

/// A write puts its chunk behind everything in the input, then moves the whole input behind
/// the output.
pub proof fn lemma_write_appends<T>(q: Queues<T>, chunk: T)
    ensures
        drive_write(WriteOneAction::WriteInput(chunk), q, op_fuel(q)) == Some(
            (Seq::<T>::empty(), q.1 + q.0.push(chunk)),
        ),
{
    let fuel = op_fuel(q);
    let pushed: Queues<T> = (q.0.push(chunk), q.1);
    assert(drive_write(WriteOneAction::WriteInput(chunk), q, fuel) == drive_write(
        WriteOneAction::<T, T>::Lock,
        pushed,
        (fuel - 1) as nat,
    ));
    assert(drive_write(WriteOneAction::<T, T>::Lock, pushed, (fuel - 1) as nat) == drive_write(
        WriteOneAction::<T, T>::PeekInput,
        pushed,
        (fuel - 2) as nat,
    ));
    lemma_write_ferries(pushed, (fuel - 2) as nat);
}

/// A pipe between first-in-first-out streams is first-in-first-out: when a single task never
/// reads more chunks than it has written or pushed, every read returns, and the chunks read
/// are the chunks written, in order, up to the number read; the rest wait in the output
/// followed by the input.
pub proof fn lemma_pipe_is_fifo<T>(ops: Seq<PipeOp<T>>)
    requires
        forall|k: int|
            0 <= k <= ops.len() ==> read_count(#[trigger] ops.take(k)) <= written(ops.take(k)).len(),
    ensures
        run_pipe(ops) matches Some((reads, q)) && {
            &&& reads.len() == read_count(ops)
            &&& reads + q.1 + q.0 == written(ops)
            &&& reads == written(ops).take(reads.len() as int)
        },
    decreases ops.len(),
{
    if ops.len() == 0 {
        assert(written(ops) =~= Seq::<T>::empty());
    } else {
        let prev = ops.drop_last();
        assert forall|k: int| 0 <= k <= prev.len() implies read_count(#[trigger] prev.take(k))
            <= written(prev.take(k)).len() by {
            assert(prev.take(k) =~= ops.take(k));
        }
        lemma_pipe_is_fifo(prev);
        let (reads, q) = run_pipe(prev).unwrap();
        assert(ops.take(ops.len() as int) =~= ops);
        match ops.last() {
            PipeOp::Write(chunk) => {
                lemma_write_appends(q, chunk);
                assert(reads + (q.1 + q.0.push(chunk)) + Seq::<T>::empty() =~= (reads + q.1 + q.0).push(chunk));
            },
            PipeOp::Push(chunk) => {
                assert(reads + q.1 + q.0.push(chunk) =~= (reads + q.1 + q.0).push(chunk));
            },
            PipeOp::Read => {
                assert(q.0.len() + q.1.len() > 0);
                lemma_read_takes_first(q);
                let (chunk, after) = drive_read(ReadOneAction::PeekOutput, q, op_fuel(q)).unwrap();
                assert(reads.push(chunk) + after.1 + after.0 =~= reads + (seq![chunk] + after.1 + after.0));
            },
        }
        let (all_reads, q2) = run_pipe(ops).unwrap();
        let w = written(ops);
        assert(all_reads + q2.1 + q2.0 == w);
        assert forall|i: int| 0 <= i < all_reads.len() implies w[i] == all_reads[i] by {
            assert((all_reads + q2.1 + q2.0)[i] == all_reads[i]);
        }
        assert(all_reads =~= w.take(all_reads.len() as int));
    }
}

} // verus!
