use vstd::prelude::*;

use crate::counter::{encode_counter, le_value, CounterRead};
use crate::errno::{Errno, SysCallResult, EIO};
use crate::event_loop::Pollable;
use crate::flags::{EventData, IoFlag};

verus! {

/// What to do after one read of a counter descriptor.
#[derive(Debug, Clone, Copy, PartialEq, Eq, Structural)]
pub enum DrainStep {
    /// Hand `count` to the source's callback; read again when `more` holds.
    Deliver { count: u64, more: bool },
    /// Stop reading: nothing is left for now.
    Done,
    /// Stop reading and report the error for this source.
    Fail(Errno),
}

/// A wake-up counter: any holder of the descriptor adds one to it, and the
/// loop drains it, seeing the sum of what was added since the last drain.
pub struct Notify {
    fd: i32,
    events: IoFlag,
}

impl Notify {
    pub closed spec fn descriptor(&self) -> i32 {
        self.fd
    }

    pub closed spec fn interest(&self) -> IoFlag {
        self.events
    }

    /// The notifier of the counter descriptor `fd`, watched for reading.
    pub fn new(fd: i32) -> (r: Notify)
        ensures
            r.descriptor() == fd,
            r.interest() == (IoFlag { readable: true, writable: false }),
    {
        Notify { fd, events: IoFlag::poll_in() }
    }

    pub fn fd(&self) -> (r: i32)
        ensures
            r == self.descriptor(),
    {
        self.fd
    }

    pub fn flags(&self) -> (r: IoFlag)
        ensures
            r == self.interest(),
    {
        self.events
    }

    /// The bytes one notification writes: an increment of one.
    pub fn increment() -> (r: [u8; 8])
        ensures
            le_value(r@) == 1,
    {
        encode_counter(1)
    }

    /// The outcome of writing an increment, given the number of bytes the
    /// write moved or its error; a short write is reported as `EIO`.
    pub fn write_result(res: Result<usize, Errno>) -> (r: SysCallResult<()>)
        ensures
            r == match res {
                Ok(n) => if n == 8 {
                    Ok(())
                } else {
                    Err(Errno(EIO))
                },
                Err(e) => Err::<(), Errno>(e),
            },
    {
        match res {
            Ok(n) => if n == 8 {
                Ok(())
            } else {
                Err(Errno(EIO))
            },
            Err(e) => Err(e),
        }
    }

    /// Whether a readiness report asks for the counter to be drained.
    pub fn must_drain(&self, event: &EventData) -> (r: bool)
        ensures
            r == event.flags.readable,
    {
        event.is_readable()
    }

    /// The drain goes on while reads succeed, each value handed to the
    /// callback once, and ends at the first read that would block or fails.
    pub fn drain_step(&self, read: CounterRead) -> (r: DrainStep)
        ensures
            r == match read {
                CounterRead::Value(n) => DrainStep::Deliver { count: n, more: true },
                CounterRead::Drained => DrainStep::Done,
                CounterRead::Failed(e) => DrainStep::Fail(e),
            },
    {
        match read {
            CounterRead::Value(n) => DrainStep::Deliver { count: n, more: true },
            CounterRead::Drained => DrainStep::Done,
            CounterRead::Failed(e) => DrainStep::Fail(e),
        }
    }
}

impl Pollable for Notify {
    fn poll_fd(&self) -> i32 {
        self.fd
    }

    fn poll_flags(&self) -> IoFlag {
        self.events
    }
}

} // verus!
