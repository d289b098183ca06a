//! Implementations of stream traits that transform or combine other streams.

mod pipe;
mod map;
mod fifo;

pub use pipe::{
    read_one_transition, write_one_transition, Iterate, IterateAction, IterateEvent,
    IterateStage, Pipe, ReadOne, ReadOneAction, ReadOneEvent, ReadOneStage, WriteOne,
    WriteOneAction, WriteOneEvent, WriteOneStage,
};
pub use map::{ReadMap, WriteMap};
pub use fifo::{
    drive_read, drive_write, lemma_pipe_is_fifo, lemma_read_takes_first, lemma_write_appends,
    op_fuel, read_count, read_outcome, run_pipe, write_outcome, written, PipeOp, Queues,
};
