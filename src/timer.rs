use vstd::prelude::*;

use crate::counter::CounterRead;
use crate::errno::{Errno, SysCallResult, EINVAL};
use crate::event_loop::Pollable;
use crate::flags::{EventData, IoFlag};
use crate::notify::DrainStep;

verus! {

/// A kernel timer setting, in whole seconds: the first expiry and the period
/// after it (zero for none).
#[derive(Debug, Clone, Copy, PartialEq, Eq, Structural)]
pub struct TimerSpec {
    pub it_interval_secs: i64,
    pub it_value_secs: i64,
}

/// The setting of a timer that first expires after `interval` seconds and
/// then every `interval` seconds, or never again when `single_shot`;
/// `EINVAL` when `interval` does not fit the kernel's seconds field.
pub open spec fn timer_setting(interval: u64, single_shot: bool) -> SysCallResult<TimerSpec> {
    if interval > i64::MAX {
        Err(Errno(EINVAL))
    } else {
        Ok(
            TimerSpec {
                it_interval_secs: if single_shot {
                    0
                } else {
                    interval as i64
                },
                it_value_secs: interval as i64,
            },
        )
    }
}

/// The kernel setting for a timer: see `timer_setting`.
pub fn timer_schedule(interval: u64, single_shot: bool) -> (r: SysCallResult<TimerSpec>)
    ensures
        r == timer_setting(interval, single_shot),
        r is Err <==> interval > i64::MAX,
        r is Err ==> r == Err::<TimerSpec, Errno>(Errno(EINVAL)),
        r is Ok ==> r->Ok_0.it_value_secs == interval && r->Ok_0.it_interval_secs == (
        if single_shot {
            0
        } else {
            interval as int
        }),
{
    if interval > i64::MAX as u64 {
        return Err(Errno(EINVAL));
    }
    let secs = interval as i64;
    let period: i64 = if single_shot {
        0
    } else {
        secs
    };
    Ok(TimerSpec { it_interval_secs: period, it_value_secs: secs })
}

/// An interval timer on a monotonic clock.
pub struct Timer {
    fd: i32,
    interval: u64,
    single_shot: bool,
    events: IoFlag,
}

impl Timer {
    pub closed spec fn descriptor(&self) -> i32 {
        self.fd
    }

    pub closed spec fn period(&self) -> u64 {
        self.interval
    }

    pub closed spec fn fires_once(&self) -> bool {
        self.single_shot
    }

    pub closed spec fn interest(&self) -> IoFlag {
        self.events
    }

    /// The repeating timer of descriptor `fd`, set with `interval`.
    pub fn new(fd: i32, interval: u64) -> (r: Timer)
        ensures
            r.descriptor() == fd,
            r.period() == interval,
            !r.fires_once(),
            r.interest() == (IoFlag { readable: true, writable: false }),
    {
        Timer { fd, interval, single_shot: false, events: IoFlag::poll_in() }
    }

    /// The single-shot timer of descriptor `fd`, set with `interval`.
    pub fn single_shot(fd: i32, interval: u64) -> (r: Timer)
        ensures
            r.descriptor() == fd,
            r.period() == interval,
            r.fires_once(),
            r.interest() == (IoFlag { readable: true, writable: false }),
    {
        Timer { fd, interval, single_shot: true, events: IoFlag::poll_in() }
    }

    pub fn fd(&self) -> (r: i32)
        ensures
            r == self.descriptor(),
    {
        self.fd
    }

    pub fn interval(&self) -> (r: u64)
        ensures
            r == self.period(),
    {
        self.interval
    }

    pub fn is_single_shot(&self) -> (r: bool)
        ensures
            r == self.fires_once(),
    {
        self.single_shot
    }

    /// The kernel setting this timer is armed with.
    pub fn schedule(&self) -> (r: SysCallResult<TimerSpec>)
        ensures
            r == timer_setting(self.period(), self.fires_once()),
    {
        timer_schedule(self.interval, self.single_shot)
    }

    /// The flags the timer wants; handling an expiry leaves them as they are.
    pub fn flags(&self) -> (r: IoFlag)
        ensures
            r == self.interest(),
    {
        self.events
    }

    /// Whether a readiness report asks for the expiry count to be read.
    pub fn must_read(&self, event: &EventData) -> (r: bool)
        ensures
            r == event.flags.readable,
    {
        event.is_readable()
    }

    /// One read per readiness report: the expiry count goes to the callback
    /// and no second read follows; would-block means another reader took
    /// the expiries; any other error is reported for this timer.
    pub fn expiry_step(&self, read: CounterRead) -> (r: DrainStep)
        ensures
            r == match read {
                CounterRead::Value(n) => DrainStep::Deliver { count: n, more: false },
                CounterRead::Drained => DrainStep::Done,
                CounterRead::Failed(e) => DrainStep::Fail(e),
            },
    {
        match read {
            CounterRead::Value(n) => DrainStep::Deliver { count: n, more: false },
            CounterRead::Drained => DrainStep::Done,
            CounterRead::Failed(e) => DrainStep::Fail(e),
        }
    }
}

impl Pollable for Timer {
    fn poll_fd(&self) -> i32 {
        self.fd
    }

    fn poll_flags(&self) -> IoFlag {
        self.events
    }
}

} // verus!
