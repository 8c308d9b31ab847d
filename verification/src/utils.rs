use std::time::{Duration, SystemTime};
use vstd::prelude::*;
use vstd::wrapping::u64_specs::wrapping_sub;

verus! {

/// Default of the time below which the pacer does not trust the scheduler.
pub const SLEEP_THRESHOLD_NS: u64 = 1000000;

/// A reading of the system's wall clock.
#[verifier::external_type_specification]
#[verifier::external_body]
pub struct ExSystemTime(std::time::SystemTime);

/// Calls `SystemTime::now`. Nothing is claimed of the reading: it depends
/// on the clock alone.
#[verifier::external_body]
fn system_now() -> SystemTime {
    SystemTime::now()
}

/// Calls `SystemTime::duration_since` with the Unix epoch, and gives
/// nothing where that reports a reading before the epoch.
#[verifier::external_body]
fn since_epoch(reading: &SystemTime) -> Option<Duration> {
    match reading.duration_since(SystemTime::UNIX_EPOCH) {
        Ok(d) => Some(d),
        Err(_) => None,
    }
}

/// Calls `Duration::as_nanos`. Nothing is claimed of the number.
#[verifier::external_body]
fn as_nanos(d: &Duration) -> u128 {
    d.as_nanos()
}

/// The nanoseconds since the Unix epoch on the wall clock, cut to 64
/// bits; 0 where the clock stands before the epoch.
pub fn get_time_ns() -> u64 {
    match since_epoch(&system_now()) {
        Some(d) => (as_nanos(&d) % 0x1_0000_0000_0000_0000u128) as u64,
        None => 0,
    }
}

/// Nanoseconds to leave to the scheduler of a pause of `ns`: what exceeds
/// the threshold.
pub fn coarse_sleep(ns: u64, threshold_ns: u64) -> (r: u64)
    ensures
        r == if ns > threshold_ns {
            ns - threshold_ns
        } else {
            0
        },
{
    if ns > threshold_ns {
        ns - threshold_ns
    } else {
        0
    }
}

/// What is left of a pause of `ns` after the scheduler took `elapsed`:
/// nothing where it took longer than the pause.
pub fn after_coarse_sleep(ns: u64, elapsed: u64) -> (r: Option<u64>)
    ensures
        r == if elapsed > ns {
            None
        } else {
            Some((ns - elapsed) as u64)
        },
{
    if elapsed > ns {
        None
    } else {
        Some(ns - elapsed)
    }
}

/// Whether a busy wait of `ns` that began at `start` is over at `now`.
pub fn spin_done(start: u64, now: u64, ns: u64) -> (done: bool)
    ensures
        done == (wrapping_sub(now, start) >= ns),
{
    now.wrapping_sub(start) >= ns
}

/// The pause after a send that took `elapsed`, for sends `interval` apart.
pub fn send_pause(elapsed: u64, interval: u64) -> (pause: u64)
    ensures
        pause == spec_send_pause(elapsed, interval),
        elapsed + pause >= interval,
{
    if elapsed < interval {
        interval - elapsed
    } else {
        0
    }
}

/// The pause after a send that took `elapsed`, for sends `interval` apart.
pub open spec fn spec_send_pause(elapsed: u64, interval: u64) -> u64 {
    if elapsed < interval {
        (interval - elapsed) as u64
    } else {
        0
    }
}

/// A pause of `ns` is consumed: where the scheduler took `elapsed` and
/// left a rest, and the busy wait for that rest, begun at `spin_start`,
/// was over at `now`, at least `ns` have passed; where it left no rest, it
/// took more than `ns` itself.
pub proof fn lemma_pause_consumed(ns: u64, elapsed: u64, spin_start: u64, now: u64)
    requires
        spin_start <= now,
        elapsed <= ns ==> wrapping_sub(now, spin_start) >= ns - elapsed,
    ensures
        elapsed > ns || elapsed + (now - spin_start) >= ns,
{
}

/// Sends are never closer than the interval: where a send began at
/// `start` and was done at `sent`, and the wait that followed, begun at
/// `wait_start`, was over at `next`, the time from `start` to `next` is at
/// least the interval, for clock readings that do not go back.
pub proof fn lemma_send_spacing(start: u64, sent: u64, wait_start: u64, next: u64, interval: u64)
    requires
        start <= sent <= wait_start <= next,
        wrapping_sub(next, wait_start) >= spec_send_pause((sent - start) as u64, interval),
    ensures
        next - start >= interval,
{
}

/// The sender of a run: it hands out the packet indices 1 to `iters`, in order.
#[derive(Debug, Clone, Copy, PartialEq, Eq)]
pub struct Sender {
    pub iters: u64,
    pub sent: u64,
}

impl Sender {
    /// The sender has not handed out more indices than the run has packets.
    pub open spec fn wf(self) -> bool {
        self.sent <= self.iters
    }

    /// The sender after `calls` more calls of `next_id`.
    pub open spec fn after(self, calls: nat) -> Sender {
        Sender {
            iters: self.iters,
            sent: if self.sent + calls < self.iters {
                (self.sent + calls) as u64
            } else {
                self.iters
            },
        }
    }

    /// The indices that `calls` more calls of `next_id` hand out.
    pub open spec fn ids(self, calls: nat) -> Seq<u64> {
        Seq::new((self.after(calls).sent - self.sent) as nat, |i: int| (self.sent + 1 + i) as u64)
    }

    /// A sender of `iters` packets that has sent none.
    pub open spec fn start(iters: u64) -> Sender {
        Sender { iters, sent: 0 }
    }

    /// A sender of `iters` packets that has sent none.
    pub fn new(iters: u64) -> (s: Sender)
        ensures
            s.wf(),
            s == Sender::start(iters),
    {
        Sender { iters, sent: 0 }
    }

    /// The index of the next packet, or nothing once all were handed out.
    pub fn next_id(&mut self) -> (r: Option<u64>)
        requires
            old(self).wf(),
        ensures
            final(self).wf(),
            *final(self) == old(self).after(1),
            old(self).sent < old(self).iters ==> r == Some((old(self).sent + 1) as u64),
            old(self).sent >= old(self).iters ==> r.is_none(),
    {
        if self.sent < self.iters {
            self.sent += 1;
            Some(self.sent)
        } else {
            None
        }
    }
}

/// A sender of `n` packets hands out exactly the indices 1 to `n`, in
/// order, however often it is asked beyond that.
pub proof fn lemma_sender_ids(n: u64, calls: nat)
    requires
        calls >= n,
    ensures
        Sender::start(n).ids(calls).len() == n,
        forall|i: int| 0 <= i < n ==> Sender::start(n).ids(calls)[i] == i + 1,
        Sender::start(n).after(calls).sent == n,
{
}

/// Calls of `next_id` add up: the sender after `a + b` calls is the
/// sender after `a` calls and then `b` more.
pub proof fn lemma_sender_after(s: Sender, a: nat, b: nat)
    requires
        s.wf(),
    ensures
        s.after(a).after(b) == s.after(a + b),
        s.after(a).wf(),
{
}

} // verus!
