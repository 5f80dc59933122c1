use vstd::prelude::*;

use std::collections::BTreeMap;

use crate::bounded_queue::{BoundedQueue, State};
use crate::flags::{EventData, IoFlag};

verus! {

/// The kernel facility an event loop waits with.
#[derive(Debug, Clone, Copy, PartialEq, Eq, Structural)]
pub enum Backend {
    /// The select() system call.
    Select,
    /// The poll() system call.
    Poll,
    /// The epoll facility.
    Epoll,
    /// The BSD kqueue() system call.
    Kqueue,
    /// Windows I/O completion ports.
    IOCP,
}

/// The number of registrations an event loop stages between two ticks.
pub const QUEUE_CAPACITY: usize = 256;

/// How long, in milliseconds, one tick waits for readiness at most.
pub const POLL_TIMEOUT_MS: i32 = 1000;

/// A descriptor that can be watched.
pub trait Pollable {
    /// The descriptor to watch.
    fn poll_fd(&self) -> i32;

    /// The readiness conditions wanted right now.
    fn poll_flags(&self) -> IoFlag;
}

/// An event source: it handles the readiness of its descriptor and says
/// which conditions it wants next.
pub trait AsyncIoProvider: Pollable {
    fn handle_event(&mut self, event: &EventData) -> IoFlag;
}

/// A provider waiting to enter the directory, with the descriptor and flags
/// it reported when it was queued.
pub struct Registration<P> {
    pub fd: i32,
    pub flags: IoFlag,
    pub provider: P,
}

/// A directory entry: a provider and the flags its descriptor is armed with.
pub struct Watcher<P> {
    pub armed: IoFlag,
    pub provider: P,
}

/// The directory entry a registration becomes.
pub open spec fn watcher_of<P>(reg: Registration<P>) -> Watcher<P> {
    Watcher { armed: reg.flags, provider: reg.provider }
}

/// The directory after admitting `regs` in order: a registration whose
/// descriptor is already watched is refused and changes nothing; any other is
/// stored under its descriptor.
pub open spec fn admit_all<P>(dir: Map<i32, Watcher<P>>, regs: Seq<Registration<P>>) -> Map<
    i32,
    Watcher<P>,
>
    decreases regs.len(),
{
    if regs.len() == 0 {
        dir
    } else {
        let prev = admit_all(dir, regs.drop_last());
        if prev.contains_key(regs.last().fd) {
            prev
        } else {
            prev.insert(regs.last().fd, watcher_of(regs.last()))
        }
    }
}

/// The interest requests that admitting `regs` hands to the poller: one per
/// admitted registration, its descriptor with the flags it reported, in
/// queue order.
pub open spec fn interest_requests<P>(
    dir: Map<i32, Watcher<P>>,
    regs: Seq<Registration<P>>,
) -> Seq<(i32, IoFlag)>
    decreases regs.len(),
{
    if regs.len() == 0 {
        Seq::empty()
    } else {
        let prev = interest_requests(dir, regs.drop_last());
        if admit_all(dir, regs.drop_last()).contains_key(regs.last().fd) {
            prev
        } else {
            prev.push((regs.last().fd, regs.last().flags))
        }
    }
}

/// The providers refused while admitting `regs`, in queue order: those whose
/// descriptor was already watched when their turn came.
pub open spec fn refused<P>(dir: Map<i32, Watcher<P>>, regs: Seq<Registration<P>>) -> Seq<P>
    decreases regs.len(),
{
    if regs.len() == 0 {
        Seq::empty()
    } else {
        let prev = refused(dir, regs.drop_last());
        if admit_all(dir, regs.drop_last()).contains_key(regs.last().fd) {
            prev.push(regs.last().provider)
        } else {
            prev
        }
    }
}

/// What a directory entry becomes once its provider answered a report with
/// `new_flags`, and the interest update that answer calls for: the entry is
/// armed with the answer, and an update is due exactly when the answer
/// differs from the flags the entry was armed with.
pub fn settle<P>(w: Watcher<P>, new_flags: IoFlag) -> (r: (Watcher<P>, Option<IoFlag>))
    ensures
        r.0.provider == w.provider,
        r.0.armed == new_flags,
        r.1 == (if new_flags != w.armed {
            Some(new_flags)
        } else {
            None::<IoFlag>
        }),
{
    let changed = new_flags != w.armed;
    let entry = Watcher { armed: new_flags, provider: w.provider };
    if changed {
        (entry, Some(new_flags))
    } else {
        (entry, None)
    }
}

/// Whether no two registrations share a descriptor and none is already in `dir`.
pub open spec fn fresh_registrations<P>(
    dir: Map<i32, Watcher<P>>,
    regs: Seq<Registration<P>>,
) -> bool {
    &&& forall|i: int| 0 <= i < regs.len() ==> !dir.contains_key(#[trigger] regs[i].fd)
    &&& forall|i: int, j: int|
        0 <= i < j < regs.len() ==> #[trigger] regs[i].fd != #[trigger] regs[j].fd
}

/// Admitting registrations with distinct descriptors, none of them watched
/// yet, adds exactly one directory entry per registration, stored under its
/// descriptor with the flags it reported, asks the poller to register each
/// with those flags, in order, refuses none, and leaves every other entry as
/// it was.
pub proof fn lemma_admit_fresh<P>(dir: Map<i32, Watcher<P>>, regs: Seq<Registration<P>>)
    requires
        dir.dom().finite(),
        fresh_registrations(dir, regs),
    ensures
        admit_all(dir, regs).dom().finite(),
        admit_all(dir, regs).len() == dir.len() + regs.len(),
        interest_requests(dir, regs) == regs.map_values(|reg: Registration<P>| (reg.fd, reg.flags)),
        refused(dir, regs) == Seq::<P>::empty(),
        forall|i: int|
            0 <= i < regs.len() ==> #[trigger] admit_all(dir, regs)[regs[i].fd] == watcher_of(
                regs[i],
            ) && admit_all(dir, regs).contains_key(regs[i].fd),
        forall|fd: i32|
            dir.contains_key(fd) ==> #[trigger] admit_all(dir, regs).contains_key(fd) && admit_all(
                dir,
                regs,
            )[fd] == dir[fd],
        forall|fd: i32|
            #[trigger] admit_all(dir, regs).contains_key(fd) ==> dir.contains_key(fd) || exists|
                i: int,
            |
                0 <= i < regs.len() && regs[i].fd == fd,
    decreases regs.len(),
{
    if regs.len() == 0 {
        assert(regs.map_values(|reg: Registration<P>| (reg.fd, reg.flags)) =~= Seq::empty());
    } else {
        let init = regs.drop_last();
        let last = regs.last();
        assert(fresh_registrations(dir, init)) by {
            assert forall|i: int, j: int| 0 <= i < j < init.len() implies #[trigger] init[i].fd
                != #[trigger] init[j].fd by {
                assert(init[i] == regs[i] && init[j] == regs[j]);
            }
            assert forall|i: int| 0 <= i < init.len() implies !dir.contains_key(
                #[trigger] init[i].fd,
            ) by {
                assert(init[i] == regs[i]);
            }
        }
        lemma_admit_fresh(dir, init);
        let prev = admit_all(dir, init);
        assert(!prev.contains_key(last.fd)) by {
            if prev.contains_key(last.fd) {
                assert(!dir.contains_key(regs[regs.len() - 1].fd));
                let i = choose|i: int| 0 <= i < init.len() && init[i].fd == last.fd;
                assert(init[i] == regs[i]);
            }
        }
        assert(regs.map_values(|reg: Registration<P>| (reg.fd, reg.flags)) =~= init.map_values(
            |reg: Registration<P>| (reg.fd, reg.flags),
        ).push((last.fd, last.flags)));
        assert forall|i: int| 0 <= i < regs.len() implies #[trigger] admit_all(dir, regs)[
            regs[i].fd
        ] == watcher_of(regs[i]) && admit_all(dir, regs).contains_key(regs[i].fd) by {
            if i < regs.len() - 1 {
                assert(init[i] == regs[i]);
                assert(regs[i].fd != last.fd);
            }
        }
        assert forall|fd: i32| #[trigger] admit_all(dir, regs).contains_key(fd) implies dir.contains_key(
            fd,
        ) || exists|i: int| 0 <= i < regs.len() && regs[i].fd == fd by {
            if fd != last.fd && !dir.contains_key(fd) {
                let i = choose|i: int| 0 <= i < init.len() && init[i].fd == fd;
                assert(init[i] == regs[i]);
            } else if fd == last.fd {
                assert(regs[regs.len() - 1].fd == fd);
            }
        }
    }
}

/// The state of a reactor: the directory of watched descriptors and the
/// providers staged for admission at the next tick.
pub struct EventLoop<P> {
    watchers: BTreeMap<i32, Watcher<P>>,
    events_queue: BoundedQueue<Registration<P>>,
    running: bool,
}

impl<P: AsyncIoProvider> EventLoop<P> {
    /// Descriptor to entry, one entry per descriptor.
    pub closed spec fn directory(&self) -> Map<i32, Watcher<P>> {
        self.watchers@
    }

    /// The staged registrations, oldest first.
    pub closed spec fn pending(&self) -> Seq<Registration<P>> {
        self.events_queue@
    }

    /// Whether no stop was asked for.
    pub closed spec fn active(&self) -> bool {
        self.running
    }

    /// The staging slot the next queued provider goes to.
    pub closed spec fn staging_slot(&self) -> nat {
        self.events_queue.write_slot()
    }

    pub closed spec fn queue_capacity(&self) -> nat {
        self.events_queue.capacity()
    }

    pub closed spec fn wf(&self) -> bool {
        &&& self.events_queue.wf()
        &&& self.watchers@.dom().finite()
    }

    /// A reactor with an empty directory and nothing staged.
    pub fn new() -> (r: EventLoop<P>)
        ensures
            r.wf(),
            r.directory() == Map::<i32, Watcher<P>>::empty(),
            r.pending() == Seq::<Registration<P>>::empty(),
            r.queue_capacity() == QUEUE_CAPACITY,
            r.active(),
    {
        EventLoop {
            watchers: BTreeMap::new(),
            events_queue: BoundedQueue::new(QUEUE_CAPACITY),
            running: true,
        }
    }

    /// Asks the loop to stop: the tick in progress finishes and no further
    /// wait starts.
    pub fn stop(&mut self)
        requires
            old(self).wf(),
        ensures
            final(self).wf(),
            !final(self).active(),
            final(self).directory() == old(self).directory(),
            final(self).pending() == old(self).pending(),
            final(self).queue_capacity() == old(self).queue_capacity(),
    {
        self.running = false;
    }

    /// Whether another tick should run.
    pub fn is_running(&self) -> (r: bool)
        ensures
            r == self.active(),
    {
        self.running
    }

    /// Puts `provider` in the directory at once, under the descriptor it
    /// reports and armed with the flags it reports, and returns that
    /// interest request for the poller. When the descriptor is already
    /// watched, nothing changes and the provider is handed back with it.
    pub fn join(&mut self, provider: P) -> (r: Result<(i32, IoFlag), (i32, P)>)
        requires
            old(self).wf(),
        ensures
            final(self).wf(),
            final(self).pending() == old(self).pending(),
            final(self).queue_capacity() == old(self).queue_capacity(),
            final(self).active() == old(self).active(),
            match r {
                Ok((fd, flags)) => !old(self).directory().contains_key(fd) && final(self).directory()
                    == old(self).directory().insert(fd, Watcher { armed: flags, provider }),
                Err((fd, p)) => {
                    &&& old(self).directory().contains_key(fd)
                    &&& p == provider
                    &&& final(self).directory() == old(self).directory()
                },
            },
    {
        let fd = provider.poll_fd();
        let flags = provider.poll_flags();
        if self.watchers.contains_key(&fd) {
            return Err((fd, provider));
        }
        self.watchers.insert(fd, Watcher { armed: flags, provider });
        Ok((fd, flags))
    }

    /// Stages `provider` for admission at the next tick, with the
    /// descriptor and flags it reports now; `Full` when the staging queue is
    /// at capacity, and then nothing changes.
    pub fn start_io(&mut self, provider: P) -> (r: Result<usize, State>)
        requires
            old(self).wf(),
        ensures
            final(self).wf(),
            final(self).directory() == old(self).directory(),
            final(self).queue_capacity() == old(self).queue_capacity(),
            final(self).active() == old(self).active(),
            r is Ok <==> old(self).pending().len() < old(self).queue_capacity(),
            r is Ok ==> {
                &&& r == Ok::<usize, State>(old(self).staging_slot() as usize)
                &&& final(self).pending().len() == old(self).pending().len() + 1
                &&& final(self).pending().drop_last() == old(self).pending()
                &&& final(self).pending().last().provider == provider
            },
            r is Err ==> r == Err::<usize, State>(State::Full) && final(self).pending() == old(
                self,
            ).pending(),
    {
        let fd = provider.poll_fd();
        let flags = provider.poll_flags();
        let reg = Registration { fd, flags, provider };
        let r = self.events_queue.push(reg);
        if r.is_ok() {
            assert(self.events_queue@.drop_last() =~= old(self).events_queue@);
        }
        r
    }

    /// Moves the staged registrations into the directory, in queue order,
    /// and returns the interest requests the poller must be given for them.
    /// A registration whose descriptor is already watched is refused: its
    /// provider is handed back, and the directory keeps one provider per
    /// descriptor.
    pub fn admit_pending(&mut self) -> (r: (Vec<(i32, IoFlag)>, Vec<P>))
        requires
            old(self).wf(),
        ensures
            final(self).wf(),
            final(self).queue_capacity() == old(self).queue_capacity(),
            final(self).active() == old(self).active(),
            final(self).pending() == Seq::<Registration<P>>::empty(),
            final(self).directory() == admit_all(old(self).directory(), old(self).pending()),
            r.0@ == interest_requests(old(self).directory(), old(self).pending()),
            r.1@ == refused(old(self).directory(), old(self).pending()),
    {
        let ghost regs = self.events_queue@;
        let ghost dir0 = self.watchers@;
        let mut requests: Vec<(i32, IoFlag)> = Vec::new();
        let mut turned_away: Vec<P> = Vec::new();
        while !self.events_queue.is_empty()
            invariant
                self.events_queue.wf(),
                self.events_queue.capacity() == old(self).events_queue.capacity(),
                regs == old(self).events_queue@,
                dir0 == old(self).watchers@,
                self.running == old(self).running,
                self.events_queue@.len() <= regs.len(),
                self.events_queue@ == regs.skip(regs.len() - self.events_queue@.len()),
                self.watchers@ == admit_all(dir0, regs.take(regs.len() - self.events_queue@.len())),
                requests@ == interest_requests(
                    dir0,
                    regs.take(regs.len() - self.events_queue@.len()),
                ),
                turned_away@ == refused(dir0, regs.take(regs.len() - self.events_queue@.len())),
                self.watchers@.dom().finite(),
            decreases self.events_queue@.len(),
        {
            let ghost k = regs.len() - self.events_queue@.len();
            let popped = self.events_queue.pop();
            match popped {
                Ok(reg) => {
                    proof {
                        assert(reg == regs[k]);
                        assert(regs.take(k + 1).drop_last() =~= regs.take(k));
                        assert(regs.take(k + 1).last() == regs[k]);
                    }
                    let fd = reg.fd;
                    let flags = reg.flags;
                    if self.watchers.contains_key(&fd) {
                        turned_away.push(reg.provider);
                    } else {
                        self.watchers.insert(fd, Watcher { armed: flags, provider: reg.provider });
                        requests.push((fd, flags));
                    }
                    assert(self.events_queue@ =~= regs.skip(k + 1));
                },
                Err(_) => {},
            }
        }
        assert(regs.take(regs.len() as int) =~= regs);
        assert(self.events_queue@ =~= Seq::<Registration<P>>::empty());
        (requests, turned_away)
    }

    /// Delivers one readiness report to the provider of its descriptor and
    /// settles its answer (see `settle`): the entry is armed with the flags
    /// the provider answered, and the interest update returned is those
    /// flags when they differ from the ones the descriptor was armed with,
    /// nothing when they are the same. A report for a descriptor no provider
    /// watches is ignored.
    pub fn process_event(&mut self, event: &EventData) -> (r: Option<(i32, IoFlag)>)
        requires
            old(self).wf(),
        ensures
            final(self).wf(),
            final(self).active() == old(self).active(),
            final(self).pending() == old(self).pending(),
            final(self).queue_capacity() == old(self).queue_capacity(),
            !old(self).directory().contains_key(event.data) ==> r is None && final(self).directory()
                == old(self).directory(),
            old(self).directory().contains_key(event.data) ==> {
                let before = old(self).directory()[event.data];
                let after = final(self).directory()[event.data];
                &&& final(self).directory() == old(self).directory().insert(event.data, after)
                &&& (r is Some <==> after.armed != before.armed)
                &&& r is Some ==> r == Some((event.data, after.armed))
            },
    {
        let fd = event.data;
        match self.watchers.remove(&fd) {
            Some(mut watcher) => {
                let new_flags = watcher.provider.handle_event(event);
                let (entry, update) = settle(watcher, new_flags);
                self.watchers.insert(fd, entry);
                assert(self.watchers@ =~= old(self).watchers@.insert(fd, self.watchers@[fd]));
                match update {
                    Some(flags) => Some((fd, flags)),
                    None => None,
                }
            },
            None => {
                assert(self.watchers@ =~= old(self).watchers@);
                None
            },
        }
    }

    /// Takes the provider of `fd` out of the directory; the caller then
    /// disarms the descriptor and may close it.
    pub fn stop_io(&mut self, fd: i32) -> (r: Option<P>)
        requires
            old(self).wf(),
        ensures
            final(self).wf(),
            final(self).pending() == old(self).pending(),
            final(self).queue_capacity() == old(self).queue_capacity(),
            final(self).active() == old(self).active(),
            final(self).directory() == old(self).directory().remove(fd),
            r is Some <==> old(self).directory().contains_key(fd),
            r is Some ==> r == Some(old(self).directory()[fd].provider),
    {
        match self.watchers.remove(&fd) {
            Some(watcher) => Some(watcher.provider),
            None => None,
        }
    }

    /// Takes the provider of `fd` out of the directory when its descriptor
    /// is armed with no condition at all: such a source wants nothing more,
    /// and the caller disarms and closes its descriptor.
    pub fn retire_idle(&mut self, fd: i32) -> (r: Option<P>)
        requires
            old(self).wf(),
        ensures
            final(self).wf(),
            final(self).pending() == old(self).pending(),
            final(self).queue_capacity() == old(self).queue_capacity(),
            final(self).active() == old(self).active(),
            r is Some <==> old(self).directory().contains_key(fd) && old(self).directory()[fd].armed
                == (IoFlag { readable: false, writable: false }),
            r is Some ==> r == Some(old(self).directory()[fd].provider) && final(self).directory()
                == old(self).directory().remove(fd),
            r is None ==> final(self).directory() == old(self).directory(),
    {
        let idle = match self.watchers.get(&fd) {
            Some(w) => w.armed.is_empty(),
            None => false,
        };
        if idle {
            self.stop_io(fd)
        } else {
            None
        }
    }

    /// Stops the loop and empties the directory: every watched descriptor
    /// comes back with its provider, once, for the caller to disarm and
    /// close.
    pub fn shutdown(&mut self) -> (r: Vec<(i32, P)>)
        requires
            old(self).wf(),
        ensures
            final(self).wf(),
            !final(self).active(),
            final(self).directory() == Map::<i32, Watcher<P>>::empty(),
            final(self).pending() == old(self).pending(),
            final(self).queue_capacity() == old(self).queue_capacity(),
            r@.len() == old(self).directory().len(),
            forall|i: int|
                0 <= i < r@.len() ==> old(self).directory().contains_key(#[trigger] r@[i].0)
                    && r@[i].1 == old(self).directory()[r@[i].0].provider,
            forall|i: int, j: int| 0 <= i < j < r@.len() ==> #[trigger] r@[i].0 != #[trigger] r@[j].0,
    {
        broadcast use vstd::std_specs::btree::group_btree_axioms;

        self.running = false;
        let ghost dir0 = self.watchers@;
        let mut fds: Vec<i32> = Vec::new();
        for k in iter: self.watchers.keys()
            invariant
                self.watchers@ == dir0,
                fds@.len() == iter.index(),
                forall|j: int| 0 <= j < iter.index() ==> fds@[j] == *iter.seq()[j],
                iter.seq().unref().to_set() == dir0.dom(),
                iter.seq().no_duplicates(),
                iter.seq().len() == dir0.dom().len(),
                forall|j: int| 0 <= j < fds@.len() ==> dir0.dom().contains(#[trigger] fds@[j]),
                fds@.no_duplicates(),
                fds@ == iter.seq().unref().take(iter.index() as int),
                iter.index() == iter.seq().len() ==> fds@.to_set() == dir0.dom(),
        {
            proof {
                assert(iter.seq().unref()[iter.index() as int] == *iter.seq()[iter.index() as int]);
                assert(iter.seq().unref().contains(*iter.seq()[iter.index() as int]));
            }
            fds.push(*k);
            assert(fds@ =~= iter.seq().unref().take(fds@.len() as int));
            assert(iter.seq().unref().take(iter.seq().len() as int) =~= iter.seq().unref());
        }
        proof {
            if dir0.dom().len() == 0 {
                assert(fds@.to_set() =~= dir0.dom());
            }
        }
        assert(fds@.to_set() == dir0.dom());
        let mut out: Vec<(i32, P)> = Vec::new();
        let mut i: usize = 0;
        while i < fds.len()
            invariant
                i <= fds@.len(),
                fds@.len() == dir0.dom().len(),
                fds@.no_duplicates(),
                fds@.to_set() == dir0.dom(),
                out@.len() == i,
                forall|j: int|
                    0 <= j < i ==> (#[trigger] out@[j]).0 == fds@[j] && out@[j].1
                        == dir0[fds@[j]].provider,
                self.watchers@ == dir0.remove_keys(fds@.take(i as int).to_set()),
                self.events_queue == old(self).events_queue,
                !self.running,
            decreases fds@.len() - i,
        {
            let fd = fds[i];
            proof {
                assert(fds@.to_set().contains(fd));
                assert(!fds@.take(i as int).to_set().contains(fd)) by {
                    if fds@.take(i as int).to_set().contains(fd) {
                        let j = choose|j: int| 0 <= j < i && fds@.take(i as int)[j] == fd;
                        assert(fds@[j] == fds@[i as int]);
                    }
                }
                assert(fds@.take(i + 1).to_set() == fds@.take(i as int).to_set().insert(fd)) by {
                    assert(fds@.take(i + 1) =~= fds@.take(i as int).push(fd));
                    fds@.take(i as int).lemma_push_to_set_commute(fd);
                }
            }
            match self.watchers.remove(&fd) {
                Some(w) => {
                    out.push((fd, w.provider));
                },
                None => {},
            }
            assert(self.watchers@ =~= dir0.remove_keys(fds@.take(i + 1).to_set()));
            i = i + 1;
        }
        proof {
            assert(fds@.take(fds@.len() as int) =~= fds@);
            assert(self.watchers@ =~= Map::<i32, Watcher<P>>::empty());
            assert forall|a: int, b: int| 0 <= a < b < out@.len() implies #[trigger] out@[a].0
                != #[trigger] out@[b].0 by {
                assert(out@[a].0 == fds@[a] && out@[b].0 == fds@[b]);
            }
            assert(dir0.len() == fds@.len());
        }
        out
    }

    /// The flags `fd` is armed with, if a provider watches it.
    pub fn armed_flags(&self, fd: i32) -> (r: Option<IoFlag>)
        requires
            self.wf(),
        ensures
            r is Some <==> self.directory().contains_key(fd),
            r is Some ==> r == Some(self.directory()[fd].armed),
    {
        match self.watchers.get(&fd) {
            Some(w) => Some(w.armed),
            None => None,
        }
    }

    /// The number of watched descriptors.
    pub fn watched(&self) -> (r: usize)
        requires
            self.wf(),
        ensures
            r == self.directory().len(),
    {
        self.watchers.len()
    }

    /// The number of staged registrations.
    pub fn pending_len(&self) -> (r: usize)
        requires
            self.wf(),
        ensures
            r == self.pending().len(),
    {
        self.events_queue.len()
    }
}

} // verus!
