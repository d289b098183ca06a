use grammar::executor::control_flow::State;

#[test]
fn it_works() {
    let result = 2 + 2;
    assert_eq!(result, 4);
}

#[test]
fn map_state_maps_yielded_and_keeps_completed() {
    let f = |x: i32| x + 1;
    assert!(State::Yielded(0).map_state(f) == State::Yielded(1));
    assert!(State::Yielded(1).map_state(f) == State::Yielded(2));
    assert!(State::<i32>::Completed.map_state(f) == State::Completed);
}

use grammar::executor::control_flow::adapters::Source;
use grammar::executor::control_flow::{FoldStep, Folding};
use grammar::executor::streams::channels::BufferConfig;
use grammar::executor::streams::combinators::{
    Iterate, IterateAction, IterateEvent, Pipe, ReadMap, ReadOne, ReadOneAction, ReadOneEvent,
    WriteMap, WriteOne, WriteOneAction, WriteOneEvent,
};
use grammar::executor::streams::traits::{Peekable, Pushable};
use grammar::executor::utils::_Phantom;
use grammar::messaging::{Readable, Writable};
use grammar::utils::PhantomSyncHack;

use std::sync::Mutex;

#[test]
fn from_next_turns_items_and_the_end_into_states() {
    assert!(State::from_next(Some(3u8)) == State::Yielded(3));
    assert!(State::<u8>::from_next(None) == State::Completed);
}

#[test]
fn source_peeks_its_items_then_completes() {
    let source = Source::new([3, 4].into_iter());
    assert!(source.peek().unwrap() == State::Yielded(3));
    assert!(source.peek().unwrap() == State::Yielded(4));
    assert!(source.peek().unwrap() == State::Completed);
    assert!(source.peek().unwrap() == State::Completed);
}

fn fold_all<T, Acc, F: Fn(Acc, T) -> Acc>(init: Acc, f: F, chunks: Vec<State<T>>) -> Option<Acc> {
    let mut folding = Folding::new(init, f);
    for chunk in chunks {
        match folding.feed(chunk) {
            FoldStep::Continue(next) => folding = next,
            FoldStep::Done(acc) => return Some(acc),
        }
    }
    None
}

#[test]
fn folding_sums_until_completion() {
    let sum = fold_all(0u8, |acc, cur| acc + cur, vec![
        State::Yielded(3),
        State::Yielded(4),
        State::Completed,
        State::Yielded(100),
    ]);
    assert_eq!(sum, Some(7));
    assert_eq!(fold_all(5u8, |acc, cur: u8| acc + cur, vec![State::Completed]), Some(5));
    assert_eq!(fold_all(5u8, |acc, cur| acc + cur, vec![State::Yielded(1)]), None);
}

#[test]
fn folding_coalesces_results() {
    let f = |acc: Result<u8, String>, cur: Result<u8, String>| Ok(acc? + cur?);
    let ok = fold_all(Ok(0), f, vec![State::Yielded(Ok(3)), State::Yielded(Ok(4)), State::Completed]);
    assert_eq!(ok, Some(Ok(7)));
    let err = fold_all(Ok(0), f, vec![
        State::Yielded(Ok(3)),
        State::Yielded(Err("err".to_string())),
        State::Yielded(Ok(4)),
        State::Completed,
    ]);
    assert_eq!(err, Some(Err("err".to_string())));
}

#[test]
fn read_map_shifts_peeked_values() {
    let source = Source::new([3u8, 4].into_iter());
    let shifted = ReadMap::new(source, |x: State<u8>| x.map_state(|x| x + 1));
    assert!(shifted.peek().unwrap() == State::Yielded(4));
    assert!(shifted.transform(State::Yielded(10)) == State::Yielded(11));
    assert!(shifted.peek().unwrap() == State::Yielded(5));
    assert!(shifted.peek().unwrap() == State::Completed);
    assert!(shifted.transform_peeked(None).is_none());
    assert!(shifted.inner().peek().unwrap() == State::Completed);
}

/// A writable end that records what is pushed into it, refusing pushes once it holds `cap`.
struct Recorder {
    items: Mutex<Vec<State<u8>>>,
    cap: usize,
}

impl Writable for Recorder {
    type WriteChunk = State<u8>;
}

impl Pushable for Recorder {
    fn push(&self, chunk: State<u8>) -> Result<(), State<u8>> {
        let mut items = self.items.lock().unwrap();
        if items.len() < self.cap {
            items.push(chunk);
            Ok(())
        } else {
            Err(chunk)
        }
    }
}

impl Readable for Recorder {
    type ReadChunk = State<u8>;
}

impl Peekable for Recorder {
    fn peek(&self) -> Option<State<u8>> {
        let mut items = self.items.lock().unwrap();
        if items.is_empty() {
            None
        } else {
            Some(items.remove(0))
        }
    }
}

#[test]
fn write_map_shifts_written_values() {
    let recorder = Recorder { items: Mutex::new(vec![]), cap: 10 };
    let shifted = WriteMap::new(recorder, |x: State<u8>| x.map_state(|x| x + 1));
    let w = shifted.transform(State::Yielded(3));
    assert!(w == State::Yielded(4));
    shifted.inner().push(w).unwrap();
    assert!(shifted.inner().items.lock().unwrap()[0] == State::Yielded(4));
    assert!(shifted.transform(State::Completed) == State::Completed);
}

#[test]
fn pipe_peeks_its_output_and_pushes_into_its_input() {
    let input = Recorder { items: Mutex::new(vec![]), cap: 1 };
    let output = Source::new([9u8].into_iter());
    let pipe = Pipe::pipe(input, output);
    assert!(pipe.peek().unwrap() == State::Yielded(9));
    assert!(pipe.peek().unwrap() == State::Completed);
    assert!(pipe.push(State::Yielded(1)).is_ok());
    match pipe.push(State::Yielded(2)) {
        Err(refused) => assert!(refused == State::Yielded(2)),
        Ok(()) => panic!("the input is full"),
    }
    let (input, _bottleneck, _output) = pipe.into_parts();
    assert!(input.items.lock().unwrap().clone() == vec![State::Yielded(1)]);
}

#[test]
fn read_one_returns_a_waiting_output_chunk_at_once() {
    let (m, a) = ReadOne::<u8, u16>::start();
    assert!(matches!(a, ReadOneAction::PeekOutput));
    let (_m, a) = m.step(ReadOneEvent::OutputPeeked(Some(5u16)));
    assert!(matches!(a, ReadOneAction::Return(5)));
}

#[test]
fn read_one_ferries_input_when_it_gets_the_lock() {
    let (m, _) = ReadOne::<u8, u16>::start();
    let (m, a) = m.step(ReadOneEvent::OutputPeeked(None));
    assert!(matches!(a, ReadOneAction::TryLock));
    let (m, a) = m.step(ReadOneEvent::LockTried(true));
    assert!(matches!(a, ReadOneAction::PeekInput));
    let (m, a) = m.step(ReadOneEvent::InputPeeked(Some(1)));
    assert!(matches!(a, ReadOneAction::WriteOutput(1)));
    let (m, a) = m.step(ReadOneEvent::OutputWritten);
    assert!(matches!(a, ReadOneAction::PeekInput));
    let (m, a) = m.step(ReadOneEvent::InputPeeked(Some(2)));
    assert!(matches!(a, ReadOneAction::WriteOutput(2)));
    let (m, _) = m.step(ReadOneEvent::OutputWritten);
    let (m, a) = m.step(ReadOneEvent::InputPeeked(None));
    assert!(matches!(a, ReadOneAction::ReadOutput));
    let (_m, a) = m.step(ReadOneEvent::OutputRead(7));
    assert!(matches!(a, ReadOneAction::Return(7)));
}

#[test]
fn read_one_skips_ferrying_when_the_lock_is_taken() {
    let (m, _) = ReadOne::<u8, u16>::start();
    let (m, _) = m.step(ReadOneEvent::OutputPeeked(None));
    let (m, a) = m.step(ReadOneEvent::LockTried(false));
    assert!(matches!(a, ReadOneAction::ReadOutput));
    let (_m, a) = m.step(ReadOneEvent::OutputRead(3));
    assert!(matches!(a, ReadOneAction::Return(3)));
}

#[test]
fn write_one_writes_input_then_drains_it() {
    let (m, a) = WriteOne::<u8, u8>::start(8u8);
    assert!(matches!(a, WriteOneAction::WriteInput(8)));
    let (m, a) = m.step(WriteOneEvent::InputWritten);
    assert!(matches!(a, WriteOneAction::Lock));
    let (m, a) = m.step(WriteOneEvent::Locked);
    assert!(matches!(a, WriteOneAction::PeekInput));
    let (m, a) = m.step(WriteOneEvent::InputPeeked(Some(80)));
    assert!(matches!(a, WriteOneAction::WriteOutput(80)));
    let (m, a) = m.step(WriteOneEvent::OutputWritten);
    assert!(matches!(a, WriteOneAction::PeekInput));
    let (_m, a) = m.step(WriteOneEvent::InputPeeked(None));
    assert!(matches!(a, WriteOneAction::Finish));
}

#[test]
fn iterate_forwards_until_completion() {
    let (m, a) = Iterate::<u8>::start();
    assert!(matches!(a, IterateAction::Lock));
    let (m, a) = m.step(IterateEvent::Locked);
    assert!(matches!(a, IterateAction::ReadInput));
    let (m, a) = m.step(IterateEvent::InputRead(State::Yielded(3)));
    assert!(matches!(a, IterateAction::WriteOutput(State::Yielded(3))));
    let (m, a) = m.step(IterateEvent::OutputWritten);
    assert!(matches!(a, IterateAction::ReadInput));
    let (m, a) = m.step(IterateEvent::InputRead(State::Completed));
    assert!(matches!(a, IterateAction::WriteOutput(State::Completed)));
    let (_m, a) = m.step(IterateEvent::OutputWritten);
    assert!(matches!(a, IterateAction::Finish));
}

#[test]
fn buffers_are_unbounded_by_default() {
    assert!(matches!(BufferConfig::default(), BufferConfig::Infinite));
}

pub struct Adder<I, O, F>
where
    F: Fn(I) -> O,
{
    _ph: PhantomSyncHack<I>,
    f: F,
}

impl<I, O, F> Adder<I, O, F>
where
    F: Fn(I) -> O,
{
    pub fn new(f: F) -> Self {
        Self { _ph: PhantomSyncHack::default(), f }
    }

    pub fn g(&self, x: I) -> O {
        (self.f)(x)
    }
}

#[test]
fn phantom_markers_carry_an_unused_parameter() {
    let s = Adder::new(|x| x + 1);
    assert!(s.g(3) == 4);
    let _marker: _Phantom<std::rc::Rc<u8>> = _Phantom::new();
    fn is_send_sync<T: Send + Sync>(_t: &T) {}
    is_send_sync(&_marker);
}

use std::collections::VecDeque;

fn drive_write_on(input: &mut VecDeque<u8>, output: &mut VecDeque<u8>, x: u8) {
    let (mut m, mut a) = WriteOne::<u8, u8>::start(x);
    loop {
        let event = match a {
            WriteOneAction::WriteInput(c) => {
                input.push_back(c);
                WriteOneEvent::InputWritten
            },
            WriteOneAction::Lock => WriteOneEvent::Locked,
            WriteOneAction::PeekInput => WriteOneEvent::InputPeeked(input.pop_front()),
            WriteOneAction::WriteOutput(c) => {
                output.push_back(c);
                WriteOneEvent::OutputWritten
            },
            WriteOneAction::Finish => return,
        };
        let (next, action) = m.step(event);
        m = next;
        a = action;
    }
}

fn drive_read_on(input: &mut VecDeque<u8>, output: &mut VecDeque<u8>) -> u8 {
    let (mut m, mut a) = ReadOne::<u8, u8>::start();
    loop {
        let event = match a {
            ReadOneAction::PeekOutput => ReadOneEvent::OutputPeeked(output.pop_front()),
            ReadOneAction::TryLock => ReadOneEvent::LockTried(true),
            ReadOneAction::PeekInput => ReadOneEvent::InputPeeked(input.pop_front()),
            ReadOneAction::WriteOutput(c) => {
                output.push_back(c);
                ReadOneEvent::OutputWritten
            },
            ReadOneAction::ReadOutput => ReadOneEvent::OutputRead(output.pop_front().unwrap()),
            ReadOneAction::Return(c) => return c,
        };
        let (next, action) = m.step(event);
        m = next;
        a = action;
    }
}

#[test]
fn pipe_machines_over_queues_are_first_in_first_out() {
    let mut input = VecDeque::new();
    let mut output = VecDeque::new();
    drive_write_on(&mut input, &mut output, 1);
    input.push_back(2);
    drive_write_on(&mut input, &mut output, 3);
    input.push_back(4);
    assert_eq!(drive_read_on(&mut input, &mut output), 1);
    assert_eq!(drive_read_on(&mut input, &mut output), 2);
    drive_write_on(&mut input, &mut output, 5);
    assert_eq!(drive_read_on(&mut input, &mut output), 3);
    assert_eq!(drive_read_on(&mut input, &mut output), 4);
    assert_eq!(drive_read_on(&mut input, &mut output), 5);
}

#[test]
fn next_state_takes_the_first_remaining_item() {
    let mut items = [7u8, 8].into_iter();
    assert!(grammar::executor::control_flow::adapters::next_state(&mut items) == State::Yielded(7));
    assert!(grammar::executor::control_flow::adapters::next_state(&mut items) == State::Yielded(8));
    assert!(grammar::executor::control_flow::adapters::next_state(&mut items) == State::Completed);
}
