use lys::counter::{decode_counter, CounterRead};
use lys::errno::{Errno, EADDRINUSE, EAGAIN, EBADF, EINPROGRESS, EINVAL, EIO};
use lys::event_loop::Pollable;
use lys::flags::{EventData, IoFlag};
use lys::notify::{DrainStep, Notify};
use lys::tcp::{connect_result, ipaddr_to_inaddr, AcceptStep, Socket, Tcp, TcpEndpoint, TcpEvent};
use lys::timer::{timer_schedule, Timer, TimerSpec};

fn event(fd: i32, flags: IoFlag) -> EventData {
    EventData { flags, data: fd }
}

#[test]
fn notify_writes_an_increment_of_one() {
    assert_eq!(decode_counter(Notify::increment()), 1);
    assert_eq!(Notify::increment(), [1, 0, 0, 0, 0, 0, 0, 0]);
}

#[test]
fn notify_write_results() {
    assert_eq!(Notify::write_result(Ok(8)), Ok(()));
    assert_eq!(Notify::write_result(Ok(4)), Err(Errno(EIO)));
    assert_eq!(Notify::write_result(Err(Errno(EBADF))), Err(Errno(EBADF)));
}

#[test]
fn notify_drain_delivers_until_would_block() {
    let n = Notify::new(11);
    assert_eq!(n.fd(), 11);
    assert_eq!(n.poll_fd(), 11);
    assert_eq!(n.flags(), IoFlag::poll_in());
    assert!(n.must_drain(&event(11, IoFlag::poll_in())));
    assert!(!n.must_drain(&event(11, IoFlag::poll_out())));
    // Three notifications coalesced into one read of 3, then would-block.
    assert_eq!(n.drain_step(CounterRead::Value(3)), DrainStep::Deliver { count: 3, more: true });
    assert_eq!(n.drain_step(CounterRead::Drained), DrainStep::Done);
    assert_eq!(n.drain_step(CounterRead::Failed(Errno(EBADF))), DrainStep::Fail(Errno(EBADF)));
}

#[test]
fn repeating_timer_schedule() {
    assert_eq!(
        timer_schedule(1, false),
        Ok(TimerSpec { it_interval_secs: 1, it_value_secs: 1 })
    );
    let t = Timer::new(20, 1);
    assert!(!t.is_single_shot());
    assert_eq!(t.interval(), 1);
    assert_eq!(t.schedule(), Ok(TimerSpec { it_interval_secs: 1, it_value_secs: 1 }));
}

#[test]
fn single_shot_timer_is_not_rearmed() {
    assert_eq!(
        timer_schedule(2, true),
        Ok(TimerSpec { it_interval_secs: 0, it_value_secs: 2 })
    );
    let t = Timer::single_shot(21, 2);
    assert!(t.is_single_shot());
    assert_eq!(t.fd(), 21);
    assert_eq!(t.schedule(), Ok(TimerSpec { it_interval_secs: 0, it_value_secs: 2 }));
}

#[test]
fn timer_interval_too_large() {
    assert_eq!(timer_schedule(u64::MAX, false), Err(Errno(EINVAL)));
    assert_eq!(timer_schedule(i64::MAX as u64 + 1, true), Err(Errno(EINVAL)));
    assert!(timer_schedule(i64::MAX as u64, true).is_ok());
}

#[test]
fn timer_reads_once_per_report() {
    let t = Timer::new(22, 5);
    assert!(t.must_read(&event(22, IoFlag::poll_in())));
    assert_eq!(t.expiry_step(CounterRead::Value(2)), DrainStep::Deliver { count: 2, more: false });
    assert_eq!(t.expiry_step(CounterRead::Drained), DrainStep::Done);
    assert_eq!(t.expiry_step(CounterRead::Failed(Errno(EIO))), DrainStep::Fail(Errno(EIO)));
    assert_eq!(t.flags(), IoFlag::poll_in());
}

#[test]
fn ipv4_address_as_number() {
    assert_eq!(ipaddr_to_inaddr(127, 0, 0, 1), 0x7f00_0001);
    assert_eq!(ipaddr_to_inaddr(0, 0, 0, 0), 0);
    assert_eq!(ipaddr_to_inaddr(255, 255, 255, 255), u32::MAX);
    assert_eq!(ipaddr_to_inaddr(192, 168, 1, 20), 0xc0a8_0114);
}

#[test]
fn connect_in_progress_is_not_an_error() {
    assert_eq!(connect_result(Ok(())), Ok(()));
    assert_eq!(connect_result(Err(Errno(EINPROGRESS))), Ok(()));
    assert_eq!(connect_result(Err(Errno(111))), Err(Errno(111)));
}

#[test]
fn connector_settles_on_first_writable_report() {
    let mut tcp = Tcp::new(30);
    assert_eq!(tcp.flags(), IoFlag::all());
    assert_eq!(tcp.process(&event(30, IoFlag::poll_out()), 0), TcpEvent::Connected);
    assert_eq!(tcp.flags(), IoFlag::poll_in());
    // Writable again after connecting: nothing to settle.
    assert_eq!(tcp.process(&event(30, IoFlag::poll_out()), 0), TcpEvent::Idle);
    assert_eq!(tcp.process(&event(30, IoFlag::poll_in()), 0), TcpEvent::DataReady);
    assert_eq!(tcp.flags(), IoFlag::poll_in());
}

#[test]
fn connector_reports_pending_error() {
    let mut tcp = Tcp::new(31);
    assert_eq!(tcp.process(&event(31, IoFlag::poll_in()), 0), TcpEvent::DataReady);
    assert_eq!(tcp.flags(), IoFlag::all());
    assert_eq!(tcp.process(&event(31, IoFlag::all()), 111), TcpEvent::ConnectFailed(Errno(111)));
    assert_eq!(tcp.flags(), IoFlag::empty());
}

#[test]
fn listener_accept_drain_single_client() {
    let listener = TcpEndpoint::new(40);
    assert_eq!(listener.flags(), IoFlag::poll_in());
    assert!(listener.must_accept(&event(40, IoFlag::poll_in())));
    let mut accepted: Vec<i32> = Vec::new();
    for res in [Ok(41), Err(Errno(EAGAIN))] {
        match listener.accept_step(res) {
            AcceptStep::Accepted(s) => {
                assert_eq!(s.flags(), IoFlag::poll_in());
                accepted.push(s.fd());
            }
            AcceptStep::Exhausted => break,
            AcceptStep::Skipped(_) => {}
        }
    }
    assert_eq!(accepted, vec![41]);
    // The next drain finds nothing pending.
    assert!(matches!(listener.accept_step(Err(Errno(EAGAIN))), AcceptStep::Exhausted));
}

#[test]
fn listener_skips_failed_accepts() {
    let listener = TcpEndpoint::new(42);
    assert!(matches!(listener.accept_step(Err(Errno(EADDRINUSE))), AcceptStep::Skipped(Errno(EADDRINUSE))));
}

#[test]
fn socket_reports_data_ready() {
    let s = Socket::new(50);
    assert_eq!(s.poll_fd(), 50);
    assert_eq!(s.poll_flags(), IoFlag::poll_in());
    assert!(s.process_event(&event(50, IoFlag::poll_in())));
    assert!(!s.process_event(&event(50, IoFlag::poll_out())));
}
