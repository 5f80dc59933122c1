use lys::bounded_queue::State;
use lys::event_loop::{settle, AsyncIoProvider, EventLoop, Pollable, Watcher, QUEUE_CAPACITY};
use lys::flags::{EventData, IoFlag};

/// A provider that answers each report with the next flags of a script,
/// which it then reports as the flags it wants.
struct Scripted {
    fd: i32,
    current: IoFlag,
    answers: Vec<IoFlag>,
    seen: usize,
}

impl Scripted {
    fn new(fd: i32, initial: IoFlag, answers: Vec<IoFlag>) -> Scripted {
        Scripted { fd, current: initial, answers, seen: 0 }
    }
}

impl Pollable for Scripted {
    fn poll_fd(&self) -> i32 {
        self.fd
    }

    fn poll_flags(&self) -> IoFlag {
        self.current
    }
}

impl AsyncIoProvider for Scripted {
    fn handle_event(&mut self, _event: &EventData) -> IoFlag {
        let flags = self.answers[self.seen % self.answers.len()];
        self.seen += 1;
        self.current = flags;
        flags
    }
}

fn readable(fd: i32) -> EventData {
    EventData { flags: IoFlag::poll_in(), data: fd }
}

#[test]
fn admitting_registers_each_queued_provider() {
    let mut ev_loop = EventLoop::new();
    for fd in [5, 6, 7] {
        let p = Scripted::new(fd, if fd == 6 { IoFlag::all() } else { IoFlag::poll_in() }, vec![IoFlag::poll_in()]);
        assert!(ev_loop.start_io(p).is_ok());
    }
    assert_eq!(ev_loop.pending_len(), 3);
    assert_eq!(ev_loop.watched(), 0);
    let (requests, refused) = ev_loop.admit_pending();
    assert_eq!(requests, vec![(5, IoFlag::poll_in()), (6, IoFlag::all()), (7, IoFlag::poll_in())]);
    assert!(refused.is_empty());
    assert_eq!(ev_loop.pending_len(), 0);
    assert_eq!(ev_loop.watched(), 3);
    assert_eq!(ev_loop.armed_flags(6), Some(IoFlag::all()));
    assert_eq!(ev_loop.armed_flags(8), None);
    assert_eq!(ev_loop.admit_pending().0, vec![]);
}

#[test]
fn changed_flags_give_one_update() {
    let mut ev_loop = EventLoop::new();
    let p = Scripted::new(4, IoFlag::all(), vec![IoFlag::poll_in()]);
    assert!(ev_loop.start_io(p).is_ok());
    ev_loop.admit_pending();
    assert_eq!(ev_loop.process_event(&readable(4)), Some((4, IoFlag::poll_in())));
    assert_eq!(ev_loop.armed_flags(4), Some(IoFlag::poll_in()));
    // Same answer again: the descriptor is already armed with it.
    assert_eq!(ev_loop.process_event(&readable(4)), None);
}

#[test]
fn unchanged_flags_give_no_update() {
    let mut ev_loop = EventLoop::new();
    let p = Scripted::new(9, IoFlag::poll_in(), vec![IoFlag::poll_in()]);
    assert!(ev_loop.start_io(p).is_ok());
    ev_loop.admit_pending();
    for _ in 0..3 {
        assert_eq!(ev_loop.process_event(&readable(9)), None);
    }
    assert_eq!(ev_loop.armed_flags(9), Some(IoFlag::poll_in()));
}

#[test]
fn report_for_unknown_descriptor_is_ignored() {
    let mut ev_loop: EventLoop<Scripted> = EventLoop::new();
    assert_eq!(ev_loop.process_event(&readable(12)), None);
    assert_eq!(ev_loop.watched(), 0);
}

#[test]
fn stopping_removes_the_entry() {
    let mut ev_loop = EventLoop::new();
    assert!(ev_loop.start_io(Scripted::new(3, IoFlag::poll_in(), vec![IoFlag::all()])).is_ok());
    ev_loop.admit_pending();
    let stopped = ev_loop.stop_io(3);
    assert_eq!(stopped.map(|p| p.fd), Some(3));
    assert_eq!(ev_loop.watched(), 0);
    assert!(ev_loop.stop_io(3).is_none());
    assert_eq!(ev_loop.process_event(&readable(3)), None);
}

#[test]
fn staging_queue_fills_up() {
    let mut ev_loop = EventLoop::new();
    for fd in 0..QUEUE_CAPACITY as i32 {
        assert!(ev_loop.start_io(Scripted::new(fd, IoFlag::poll_in(), vec![IoFlag::poll_in()])).is_ok());
    }
    let extra = ev_loop.start_io(Scripted::new(1000, IoFlag::poll_in(), vec![IoFlag::poll_in()]));
    assert_eq!(extra.err(), Some(State::Full));
    assert_eq!(ev_loop.admit_pending().0.len(), QUEUE_CAPACITY);
    assert_eq!(ev_loop.watched(), QUEUE_CAPACITY);
}

#[test]
fn second_registration_of_a_descriptor_is_refused() {
    let mut ev_loop = EventLoop::new();
    assert!(ev_loop.start_io(Scripted::new(2, IoFlag::poll_in(), vec![IoFlag::poll_in()])).is_ok());
    assert!(ev_loop.start_io(Scripted::new(2, IoFlag::all(), vec![IoFlag::poll_in()])).is_ok());
    let (requests, refused) = ev_loop.admit_pending();
    assert_eq!(requests, vec![(2, IoFlag::poll_in())]);
    assert_eq!(refused.len(), 1);
    assert_eq!(refused[0].current, IoFlag::all());
    assert_eq!(ev_loop.watched(), 1);
    assert_eq!(ev_loop.armed_flags(2), Some(IoFlag::poll_in()));
}

#[test]
fn join_refuses_a_watched_descriptor() {
    let mut ev_loop = EventLoop::new();
    assert!(ev_loop.join(Scripted::new(8, IoFlag::poll_in(), vec![IoFlag::poll_in()])).is_ok());
    match ev_loop.join(Scripted::new(8, IoFlag::all(), vec![IoFlag::poll_in()])) {
        Err((fd, p)) => {
            assert_eq!(fd, 8);
            assert_eq!(p.current, IoFlag::all());
        }
        Ok(_) => panic!("a watched descriptor was joined twice"),
    }
    assert_eq!(ev_loop.armed_flags(8), Some(IoFlag::poll_in()));
}

#[test]
fn settle_arms_with_the_answer() {
    let w = Watcher { armed: IoFlag::all(), provider: 3u8 };
    let (entry, update) = settle(w, IoFlag::poll_in());
    assert_eq!(entry.armed, IoFlag::poll_in());
    assert_eq!(entry.provider, 3);
    assert_eq!(update, Some(IoFlag::poll_in()));
    let w = Watcher { armed: IoFlag::poll_in(), provider: 4u8 };
    let (entry, update) = settle(w, IoFlag::poll_in());
    assert_eq!(entry.armed, IoFlag::poll_in());
    assert_eq!(update, None);
}

#[test]
fn join_watches_at_once() {
    let mut ev_loop = EventLoop::new();
    let request = ev_loop.join(Scripted::new(14, IoFlag::all(), vec![IoFlag::poll_in()]));
    assert_eq!(request.ok(), Some((14, IoFlag::all())));
    assert_eq!(ev_loop.watched(), 1);
    assert_eq!(ev_loop.pending_len(), 0);
    assert_eq!(ev_loop.armed_flags(14), Some(IoFlag::all()));
}

#[test]
fn stop_ends_the_run() {
    let mut ev_loop: EventLoop<Scripted> = EventLoop::new();
    assert!(ev_loop.is_running());
    ev_loop.stop();
    assert!(!ev_loop.is_running());
}

#[test]
fn idle_sources_are_retired() {
    let mut ev_loop = EventLoop::new();
    assert!(ev_loop.join(Scripted::new(15, IoFlag::all(), vec![IoFlag::empty()])).is_ok());
    assert!(ev_loop.join(Scripted::new(16, IoFlag::poll_in(), vec![IoFlag::poll_in()])).is_ok());
    assert_eq!(ev_loop.retire_idle(15).map(|p| p.fd), None);
    assert_eq!(ev_loop.process_event(&readable(15)), Some((15, IoFlag::empty())));
    assert_eq!(ev_loop.retire_idle(15).map(|p| p.fd), Some(15));
    assert_eq!(ev_loop.retire_idle(16).map(|p| p.fd), None);
    assert_eq!(ev_loop.retire_idle(99).map(|p| p.fd), None);
    assert_eq!(ev_loop.watched(), 1);
}

#[test]
fn shutdown_hands_back_every_watched_descriptor() {
    let mut ev_loop = EventLoop::new();
    for fd in [21, 4, 13] {
        assert!(ev_loop.join(Scripted::new(fd, IoFlag::poll_in(), vec![IoFlag::poll_in()])).is_ok());
    }
    let mut drained: Vec<i32> = ev_loop.shutdown().into_iter().map(|(fd, p)| {
        assert_eq!(fd, p.fd);
        fd
    }).collect();
    drained.sort();
    assert_eq!(drained, vec![4, 13, 21]);
    assert_eq!(ev_loop.watched(), 0);
    assert!(!ev_loop.is_running());
    assert!(ev_loop.shutdown().is_empty());
}
