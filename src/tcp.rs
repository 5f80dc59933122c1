use vstd::prelude::*;

use crate::errno::{Errno, SysCallResult, EAGAIN, EINPROGRESS};
use crate::event_loop::Pollable;
use crate::flags::{EventData, IoFlag};

verus! {

/// The number of pending connections a listening socket queues.
pub const LISTEN_BACKLOG: i32 = 16;

/// The IPv4 address `a.b.c.d` as one number, `a` most significant.
pub open spec fn ipv4_value(a: u8, b: u8, c: u8, d: u8) -> int {
    a as int * 0x100_0000 + b as int * 0x1_0000 + c as int * 0x100 + d as int
}

/// The IPv4 address `a.b.c.d` as one number, `a` most significant.
pub fn ipaddr_to_inaddr(a: u8, b: u8, c: u8, d: u8) -> (r: u32)
    ensures
        r == ipv4_value(a, b, c, d),
{
    (a as u32) * 0x100_0000 + (b as u32) * 0x1_0000 + (c as u32) * 0x100 + d as u32
}

/// The outcome of starting a non-blocking connect: "in progress" is the
/// expected answer, not an error.
pub fn connect_result(res: Result<(), Errno>) -> (r: SysCallResult<()>)
    ensures
        r == match res {
            Ok(()) => Ok(()),
            Err(e) => if e.0 == EINPROGRESS {
                Ok(())
            } else {
                Err::<(), Errno>(e)
            },
        },
{
    match res {
        Ok(()) => Ok(()),
        Err(e) => if e.0 == EINPROGRESS {
            Ok(())
        } else {
            Err(e)
        },
    }
}

/// What a connecting socket reports for one readiness report.
#[derive(Debug, Clone, Copy, PartialEq, Eq, Structural)]
pub enum TcpEvent {
    /// The connection is established.
    Connected,
    /// The connection attempt failed with this error.
    ConnectFailed(Errno),
    /// Data can be read.
    DataReady,
    /// Nothing to report.
    Idle,
}

/// An outgoing connection, started non-blocking and watched until the
/// kernel settles it.
pub struct Tcp {
    fd: i32,
    events: IoFlag,
}

impl Tcp {
    pub closed spec fn descriptor(&self) -> i32 {
        self.fd
    }

    pub closed spec fn interest(&self) -> IoFlag {
        self.events
    }

    /// Whether the connection attempt is still unsettled.
    pub open spec fn connecting(&self) -> bool {
        self.interest().writable
    }

    /// The connector of socket `fd`, whose connect is in progress: it waits
    /// for the socket to become writable, and readable.
    pub fn new(fd: i32) -> (r: Tcp)
        ensures
            r.descriptor() == fd,
            r.interest() == (IoFlag { readable: true, writable: true }),
    {
        Tcp { fd, events: IoFlag::all() }
    }

    pub fn fd(&self) -> (r: i32)
        ensures
            r == self.descriptor(),
    {
        self.fd
    }

    pub fn flags(&self) -> (r: IoFlag)
        ensures
            r == self.interest(),
    {
        self.events
    }

    /// Handles one readiness report. `pending_error` is the socket's pending
    /// error (zero for none), read once the socket reports writable.
    ///
    /// The first writable report settles the connection: with no pending
    /// error it is established and writability is no longer watched; with
    /// one, the attempt failed and nothing is watched any more. Otherwise a
    /// readable report means data is waiting.
    pub fn process(&mut self, event: &EventData, pending_error: i32) -> (r: TcpEvent)
        ensures
            final(self).descriptor() == old(self).descriptor(),
            old(self).connecting() && event.flags.writable && pending_error == 0 ==> r
                == TcpEvent::Connected && final(self).interest() == (IoFlag {
                readable: true,
                writable: false,
            }),
            old(self).connecting() && event.flags.writable && pending_error != 0 ==> r
                == TcpEvent::ConnectFailed(Errno(pending_error)) && final(self).interest() == (
            IoFlag { readable: false, writable: false }),
            !(old(self).connecting() && event.flags.writable) ==> final(self).interest() == old(
                self,
            ).interest() && r == (if event.flags.readable {
                TcpEvent::DataReady
            } else {
                TcpEvent::Idle
            }),
    {
        if self.events.writable && event.flags.writable {
            if pending_error == 0 {
                self.events = IoFlag::poll_in();
                TcpEvent::Connected
            } else {
                self.events = IoFlag::empty();
                TcpEvent::ConnectFailed(Errno(pending_error))
            }
        } else if event.flags.readable {
            TcpEvent::DataReady
        } else {
            TcpEvent::Idle
        }
    }
}

impl Pollable for Tcp {
    fn poll_fd(&self) -> i32 {
        self.fd
    }

    fn poll_flags(&self) -> IoFlag {
        self.events
    }
}

/// One established connection, watched for incoming data.
pub struct Socket {
    fd: i32,
    flags: IoFlag,
}

impl Socket {
    pub closed spec fn descriptor(&self) -> i32 {
        self.fd
    }

    pub closed spec fn interest(&self) -> IoFlag {
        self.flags
    }

    /// The connection of socket `fd`, watched for reading.
    pub fn new(fd: i32) -> (r: Socket)
        ensures
            r.descriptor() == fd,
            r.interest() == (IoFlag { readable: true, writable: false }),
    {
        Socket { fd, flags: IoFlag::poll_in() }
    }

    pub fn fd(&self) -> (r: i32)
        ensures
            r == self.descriptor(),
    {
        self.fd
    }

    pub fn flags(&self) -> (r: IoFlag)
        ensures
            r == self.interest(),
    {
        self.flags
    }

    /// Whether a readiness report means data is waiting to be read.
    pub fn process_event(&self, event: &EventData) -> (r: bool)
        ensures
            r == event.flags.readable,
    {
        event.is_readable()
    }
}

impl Pollable for Socket {
    fn poll_fd(&self) -> i32 {
        self.fd
    }

    fn poll_flags(&self) -> IoFlag {
        self.flags
    }
}

/// What to do after one accept call on a listening socket.
pub enum AcceptStep {
    /// A connection was accepted: hand it on, then accept again.
    Accepted(Socket),
    /// No connection is pending: the drain is over.
    Exhausted,
    /// The accept failed: report it, then accept again.
    Skipped(Errno),
}

/// A listening socket.
pub struct TcpEndpoint {
    fd: i32,
    events: IoFlag,
}

impl TcpEndpoint {
    pub closed spec fn descriptor(&self) -> i32 {
        self.fd
    }

    pub closed spec fn interest(&self) -> IoFlag {
        self.events
    }

    /// The listener of the bound socket `fd`, watched for reading.
    pub fn new(fd: i32) -> (r: TcpEndpoint)
        ensures
            r.descriptor() == fd,
            r.interest() == (IoFlag { readable: true, writable: false }),
    {
        TcpEndpoint { fd, events: IoFlag::poll_in() }
    }

    pub fn fd(&self) -> (r: i32)
        ensures
            r == self.descriptor(),
    {
        self.fd
    }

    pub fn flags(&self) -> (r: IoFlag)
        ensures
            r == self.interest(),
    {
        self.events
    }

    /// Whether a readiness report asks for pending connections to be accepted.
    pub fn must_accept(&self, event: &EventData) -> (r: bool)
        ensures
            r == event.flags.readable,
    {
        event.is_readable()
    }

    /// The accept drain: every accepted descriptor becomes a connection
    /// watched for reading; would-block ends the drain; any other error is
    /// reported and the drain goes on.
    pub fn accept_step(&self, res: Result<i32, Errno>) -> (r: AcceptStep)
        ensures
            match res {
                Ok(fd) => r matches AcceptStep::Accepted(s) && s.descriptor() == fd && s.interest()
                    == (IoFlag { readable: true, writable: false }),
                Err(e) => if e.0 == EAGAIN {
                    r is Exhausted
                } else {
                    r matches AcceptStep::Skipped(x) && x == e
                },
            },
    {
        match res {
            Ok(fd) => AcceptStep::Accepted(Socket::new(fd)),
            Err(e) => if e.0 == EAGAIN {
                AcceptStep::Exhausted
            } else {
                AcceptStep::Skipped(e)
            },
        }
    }
}

impl Pollable for TcpEndpoint {
    fn poll_fd(&self) -> i32 {
        self.fd
    }

    fn poll_flags(&self) -> IoFlag {
        self.events
    }
}

} // verus!
