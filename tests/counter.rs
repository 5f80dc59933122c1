use lys::counter::{classify_read, decode_counter, encode_counter, CounterRead};
use lys::errno::{Errno, EAGAIN, EBADF, EIO};

#[test]
fn encode_is_little_endian() {
    assert_eq!(encode_counter(1), [1, 0, 0, 0, 0, 0, 0, 0]);
    assert_eq!(encode_counter(0x0102_0304_0506_0708), [8, 7, 6, 5, 4, 3, 2, 1]);
    assert_eq!(encode_counter(u64::MAX), [0xff; 8]);
}

#[test]
fn decode_reads_little_endian() {
    assert_eq!(decode_counter([3, 0, 0, 0, 0, 0, 0, 0]), 3);
    assert_eq!(decode_counter([0, 1, 0, 0, 0, 0, 0, 0]), 256);
    assert_eq!(decode_counter([8, 7, 6, 5, 4, 3, 2, 1]), 0x0102_0304_0506_0708);
}

#[test]
fn counter_round_trip() {
    for v in [0u64, 1, 5, 255, 256, 65_537, 1 << 40, u64::MAX - 1, u64::MAX] {
        assert_eq!(decode_counter(encode_counter(v)), v);
    }
}

#[test]
fn classify_counter_reads() {
    let buf = encode_counter(4);
    assert_eq!(classify_read(Ok(8), buf), CounterRead::Value(4));
    assert_eq!(classify_read(Err(Errno(EAGAIN)), buf), CounterRead::Drained);
    assert_eq!(classify_read(Err(Errno(EBADF)), buf), CounterRead::Failed(Errno(EBADF)));
    assert_eq!(classify_read(Ok(3), buf), CounterRead::Failed(Errno(EIO)));
}
