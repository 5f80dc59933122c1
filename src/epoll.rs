use vstd::prelude::*;

use crate::errno::{Errno, SysCallResult, ENOENT};
use crate::flags::{EventData, FromIoFlags, IoFlag, ToIoFlags};

verus! {

pub const EPOLLIN: u32 = 0x001;

pub const EPOLLPRI: u32 = 0x002;

pub const EPOLLOUT: u32 = 0x004;

pub const EPOLLERR: u32 = 0x008;

pub const EPOLLHUP: u32 = 0x010;

pub const EPOLLRDNORM: u32 = 0x040;

pub const EPOLLRDBAND: u32 = 0x080;

pub const EPOLLWRNORM: u32 = 0x100;

pub const EPOLLWRBAND: u32 = 0x200;

pub const EPOLLMSG: u32 = 0x400;

pub const EPOLLRDHUP: u32 = 0x2000;

pub const EPOLLWAKEUP: u32 = 0x2000_0000;

pub const EPOLLONESHOT: u32 = 0x4000_0000;

pub const EPOLLET: u32 = 0x8000_0000;

/// The operations of the epoll control call.
#[derive(Debug, Clone, Copy, PartialEq, Eq, Structural)]
pub enum EpollControl {
    Add,
    Del,
    Mod,
}

impl EpollControl {
    /// The operation code the kernel expects.
    pub open spec fn code_spec(&self) -> i32 {
        match self {
            EpollControl::Add => 1,
            EpollControl::Del => 2,
            EpollControl::Mod => 3,
        }
    }

    pub fn code(&self) -> (r: i32)
        ensures
            r == self.code_spec(),
    {
        match self {
            EpollControl::Add => 1,
            EpollControl::Del => 2,
            EpollControl::Mod => 3,
        }
    }
}

/// An epoll event mask.
#[derive(Debug, Clone, Copy, PartialEq, Eq, Structural)]
pub struct EpollEventKind {
    pub bits: u32,
}

/// The readiness flags an epoll mask reports: readable for `EPOLLIN`,
/// writable for `EPOLLOUT`; every other bit is ignored.
pub open spec fn decode_bits(bits: u32) -> IoFlag {
    IoFlag { readable: bits & EPOLLIN != 0, writable: bits & EPOLLOUT != 0 }
}

/// The epoll mask that watches for `flags`: `EPOLLIN` for readable,
/// `EPOLLOUT` for writable, and nothing else.
pub open spec fn encode_flags(flags: IoFlag) -> u32 {
    (if flags.readable {
        EPOLLIN
    } else {
        0
    }) | (if flags.writable {
        EPOLLOUT
    } else {
        0
    })
}

impl EpollEventKind {
    pub fn empty() -> (r: EpollEventKind)
        ensures
            r.bits == 0,
    {
        EpollEventKind { bits: 0 }
    }

    /// Whether every bit of `other` is set in `self`.
    pub fn contains(&self, other: EpollEventKind) -> (r: bool)
        ensures
            r == (self.bits & other.bits == other.bits),
    {
        self.bits & other.bits == other.bits
    }
}

impl ToIoFlags for EpollEventKind {
    open spec fn io_flags_spec(&self) -> IoFlag {
        decode_bits(self.bits)
    }

    fn to_io_flags(&self) -> (r: IoFlag) {
        IoFlag { readable: self.bits & EPOLLIN != 0, writable: self.bits & EPOLLOUT != 0 }
    }
}

impl FromIoFlags for EpollEventKind {
    open spec fn from_io_flags_spec(flags: IoFlag) -> EpollEventKind {
        EpollEventKind { bits: encode_flags(flags) }
    }

    fn from_io_flags(flags: IoFlag) -> (r: EpollEventKind) {
        let r: u32 = if flags.readable {
            EPOLLIN
        } else {
            0
        };
        let w: u32 = if flags.writable {
            EPOLLOUT
        } else {
            0
        };
        EpollEventKind { bits: r | w }
    }
}

proof fn lemma_known_mask()
    ensures
        EPOLLIN | EPOLLOUT == 5,
{
    assert(1u32 | 4u32 == 5u32) by (bit_vector);
}

/// Decoding the mask built for `flags` gives back `flags`.
pub proof fn lemma_flags_round_trip(flags: IoFlag)
    ensures
        decode_bits(encode_flags(flags)) == flags,
        EpollEventKind::from_io_flags_spec(flags).io_flags_spec() == flags,
{
    let r: u32 = if flags.readable {
        1
    } else {
        0
    };
    let w: u32 = if flags.writable {
        4
    } else {
        0
    };
    assert((r == 0 || r == 1) && (w == 0 || w == 4) ==> ((r | w) & 1 != 0) == (r == 1) && ((r
        | w) & 4 != 0) == (w == 4)) by (bit_vector);
}

/// A mask with neither `EPOLLIN` nor `EPOLLOUT` set decodes to no readiness.
pub proof fn lemma_foreign_bits_decode_empty(bits: u32)
    requires
        bits & (EPOLLIN | EPOLLOUT) == 0,
    ensures
        decode_bits(bits) == (IoFlag { readable: false, writable: false }),
{
    lemma_known_mask();
    assert(bits & 5 == 0 ==> bits & 1 == 0 && bits & 4 == 0) by (bit_vector);
}

/// Bits other than `EPOLLIN` and `EPOLLOUT` change nothing in what a mask
/// decodes to.
pub proof fn lemma_decode_ignores_foreign_bits(bits: u32, extra: u32)
    requires
        extra & (EPOLLIN | EPOLLOUT) == 0,
    ensures
        decode_bits(bits | extra) == decode_bits(bits),
{
    lemma_known_mask();
    assert(extra & 5 == 0 ==> ((bits | extra) & 1 != 0) == (bits & 1 != 0) && ((bits | extra) & 4
        != 0) == (bits & 4 != 0)) by (bit_vector);
}

/// A mask built from readiness flags holds no bit but `EPOLLIN` and `EPOLLOUT`.
pub proof fn lemma_encode_sets_known_bits_only(flags: IoFlag)
    ensures
        encode_flags(flags) & !(EPOLLIN | EPOLLOUT) == 0,
{
    let r: u32 = if flags.readable {
        1
    } else {
        0
    };
    let w: u32 = if flags.writable {
        4
    } else {
        0
    };
    lemma_known_mask();
    assert((r == 0 || r == 1) && (w == 0 || w == 4) ==> (r | w) & !5u32 == 0) by (bit_vector);
}

/// The outcome of disarming a descriptor: one that is no longer registered
/// counts as disarmed.
pub fn removal_result(res: Result<(), Errno>) -> (r: SysCallResult<()>)
    ensures
        r == match res {
            Ok(()) => Ok(()),
            Err(e) => if e.0 == ENOENT {
                Ok(())
            } else {
                Err::<(), Errno>(e)
            },
        },
{
    match res {
        Ok(()) => Ok(()),
        Err(e) => if e.0 == ENOENT {
            Ok(())
        } else {
            Err(e)
        },
    }
}

/// The number of entries one wait call can report.
pub const EVENT_BUFFER_SLOTS: usize = 256;

/// The readiness report an entry of the kernel's event list stands for.
pub open spec fn event_data_of(e: EpollEvent) -> EventData {
    EventData { flags: decode_bits(e.events.bits), data: e.data }
}

/// The readiness reports of the first `count` entries of `buf`, the ones a
/// wait call filled in, in order (all of `buf` when `count` is larger).
pub fn ready_events(buf: &Vec<EpollEvent>, count: usize) -> (r: Vec<EventData>)
    ensures
        r@.len() == if count <= buf@.len() {
            count as int
        } else {
            buf@.len() as int
        },
        forall|i: int| 0 <= i < r@.len() ==> #[trigger] r@[i] == event_data_of(buf@[i]),
{
    let n = if count <= buf.len() {
        count
    } else {
        buf.len()
    };
    let mut out: Vec<EventData> = Vec::with_capacity(n);
    let mut i: usize = 0;
    while i < n
        invariant
            n <= buf@.len(),
            i <= n,
            out@.len() == i,
            forall|j: int| 0 <= j < i ==> #[trigger] out@[j] == event_data_of(buf@[j]),
        decreases n - i,
    {
        out.push(buf[i].to_event_data());
        i = i + 1;
    }
    out
}

/// One entry of the kernel's event list: a mask and the descriptor it is about.
#[derive(Debug, Clone, Copy, PartialEq, Eq, Structural)]
pub struct EpollEvent {
    pub events: EpollEventKind,
    pub data: i32,
}

impl EpollEvent {
    /// The entry that arms `fd` for `flags`.
    pub fn interest(fd: i32, flags: IoFlag) -> (r: EpollEvent)
        ensures
            r.data == fd,
            r.events.bits == encode_flags(flags),
    {
        EpollEvent { events: EpollEventKind::from_io_flags(flags), data: fd }
    }

    /// The readiness report this entry stands for.
    pub fn to_event_data(&self) -> (r: EventData)
        ensures
            r.data == self.data,
            r.flags == decode_bits(self.events.bits),
    {
        EventData { flags: self.events.to_io_flags(), data: self.data }
    }
}

} // verus!
