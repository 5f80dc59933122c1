use vstd::prelude::*;

verus! {

/// The readiness conditions a descriptor can be watched for.
#[derive(Debug, Clone, Copy, PartialEq, Eq, Structural)]
pub struct IoFlag {
    pub readable: bool,
    pub writable: bool,
}

impl IoFlag {
    /// No condition.
    pub fn empty() -> (r: IoFlag)
        ensures
            !r.readable && !r.writable,
    {
        IoFlag { readable: false, writable: false }
    }

    /// Readable only.
    pub fn poll_in() -> (r: IoFlag)
        ensures
            r.readable && !r.writable,
    {
        IoFlag { readable: true, writable: false }
    }

    /// Writable only.
    pub fn poll_out() -> (r: IoFlag)
        ensures
            !r.readable && r.writable,
    {
        IoFlag { readable: false, writable: true }
    }

    /// Readable and writable.
    pub fn all() -> (r: IoFlag)
        ensures
            r.readable && r.writable,
    {
        IoFlag { readable: true, writable: true }
    }

    /// Whether every condition of `other` is in `self`.
    pub fn contains(&self, other: IoFlag) -> (r: bool)
        ensures
            r == ((other.readable ==> self.readable) && (other.writable ==> self.writable)),
    {
        (!other.readable || self.readable) && (!other.writable || self.writable)
    }

    /// The conditions of `self` or of `other`.
    pub fn union(&self, other: IoFlag) -> (r: IoFlag)
        ensures
            r.readable == (self.readable || other.readable),
            r.writable == (self.writable || other.writable),
    {
        IoFlag {
            readable: self.readable || other.readable,
            writable: self.writable || other.writable,
        }
    }

    /// The conditions of `self` that are not in `other`.
    pub fn remove(&self, other: IoFlag) -> (r: IoFlag)
        ensures
            r.readable == (self.readable && !other.readable),
            r.writable == (self.writable && !other.writable),
    {
        IoFlag {
            readable: self.readable && !other.readable,
            writable: self.writable && !other.writable,
        }
    }

    pub fn is_empty(&self) -> (r: bool)
        ensures
            r == (!self.readable && !self.writable),
    {
        !self.readable && !self.writable
    }
}

/// A backend bit set that can be read as readiness flags.
pub trait ToIoFlags {
    spec fn io_flags_spec(&self) -> IoFlag;

    fn to_io_flags(&self) -> (r: IoFlag)
        ensures
            r == self.io_flags_spec(),
    ;
}

/// A backend bit set that can be built from readiness flags.
pub trait FromIoFlags: Sized {
    spec fn from_io_flags_spec(flags: IoFlag) -> Self;

    fn from_io_flags(flags: IoFlag) -> (r: Self)
        ensures
            r == Self::from_io_flags_spec(flags),
    ;
}

/// One readiness report: the conditions met and the descriptor they are about.
#[derive(Debug, Clone, Copy, PartialEq, Eq, Structural)]
pub struct EventData {
    pub flags: IoFlag,
    pub data: i32,
}

impl EventData {
    pub fn is_readable(&self) -> (r: bool)
        ensures
            r == self.flags.readable,
    {
        self.flags.readable
    }

    pub fn is_writable(&self) -> (r: bool)
        ensures
            r == self.flags.writable,
    {
        self.flags.writable
    }
}

} // verus!
