//! A single-threaded, readiness-based I/O reactor core: a staging queue for
//! new event sources, conversion between readiness flags and epoll masks, the
//! descriptor directory with its dispatch rules, and the decision logic of
//! the timer, wake-counter and TCP event sources.
pub mod bounded_queue;
pub mod counter;
pub mod epoll;
pub mod errno;
pub mod event_loop;
pub mod flags;
pub mod notify;
pub mod tcp;
pub mod timer;
