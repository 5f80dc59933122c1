use vstd::prelude::*;

use crate::errno::{Errno, EAGAIN, EIO};

verus! {

/// The number eight little-endian bytes stand for.
pub open spec fn le_value(b: Seq<u8>) -> int {
    b[0] as int + 0x100 * b[1] + 0x1_0000 * b[2] + 0x100_0000 * b[3] + 0x1_0000_0000 * b[4]
        + 0x100_0000_0000 * b[5] + 0x1_0000_0000_0000 * b[6] + 0x100_0000_0000_0000 * b[7]
}

/// The eight bytes, least significant first, that carry a kernel counter
/// value (timer expirations, wake-up counts).
pub fn encode_counter(v: u64) -> (r: [u8; 8])
    ensures
        le_value(r@) == v,
{
    let b0 = (v % 256) as u8;
    let v1 = v / 256;
    let b1 = (v1 % 256) as u8;
    let v2 = v1 / 256;
    let b2 = (v2 % 256) as u8;
    let v3 = v2 / 256;
    let b3 = (v3 % 256) as u8;
    let v4 = v3 / 256;
    let b4 = (v4 % 256) as u8;
    let v5 = v4 / 256;
    let b5 = (v5 % 256) as u8;
    let v6 = v5 / 256;
    let b6 = (v6 % 256) as u8;
    let v7 = v6 / 256;
    let b7 = v7 as u8;
    assert(v7 < 256);
    let r = [b0, b1, b2, b3, b4, b5, b6, b7];
    assert(r@ =~= seq![b0, b1, b2, b3, b4, b5, b6, b7]);
    r
}

/// The counter value carried by eight bytes, least significant first.
pub fn decode_counter(b: [u8; 8]) -> (r: u64)
    ensures
        r == le_value(b@),
{
    let mut acc: u64 = b[7] as u64;
    acc = acc * 256 + b[6] as u64;
    acc = acc * 256 + b[5] as u64;
    acc = acc * 256 + b[4] as u64;
    acc = acc * 256 + b[3] as u64;
    acc = acc * 256 + b[2] as u64;
    acc = acc * 256 + b[1] as u64;
    acc = acc * 256 + b[0] as u64;
    acc
}

/// What one read of a kernel counter descriptor came to.
#[derive(Debug, Clone, Copy, PartialEq, Eq, Structural)]
pub enum CounterRead {
    /// Eight bytes were read; they carry this value.
    Value(u64),
    /// The counter is zero for now: nothing more to read.
    Drained,
    /// The read failed, or moved fewer than eight bytes.
    Failed(Errno),
}

/// The spec of `classify_read`.
pub open spec fn read_outcome(res: Result<usize, Errno>, buf: Seq<u8>) -> CounterRead {
    match res {
        Ok(n) => if n == 8 {
            CounterRead::Value(le_value(buf) as u64)
        } else {
            CounterRead::Failed(Errno(EIO))
        },
        Err(e) => if e.0 == EAGAIN {
            CounterRead::Drained
        } else {
            CounterRead::Failed(e)
        },
    }
}

/// Classifies the result of reading a counter descriptor into `buf`: the
/// number of bytes read, or the error. Would-block ends a drain; any other
/// error, and a short read (reported as `EIO`), is a failure.
pub fn classify_read(res: Result<usize, Errno>, buf: [u8; 8]) -> (r: CounterRead)
    ensures
        r == read_outcome(res, buf@),
{
    match res {
        Ok(n) => if n == 8 {
            CounterRead::Value(decode_counter(buf))
        } else {
            CounterRead::Failed(Errno(EIO))
        },
        Err(e) => if e.0 == EAGAIN {
            CounterRead::Drained
        } else {
            CounterRead::Failed(e)
        },
    }
}

} // verus!
