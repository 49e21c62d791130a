//! Progress reporting for a streamed transfer.
//!
//! The tracker stands for the sending half of the bounded progress
//! channel: it decides which percentage events are emitted. Emitted
//! values are strictly increasing, so the stream a consumer sees is
//! monotonically non-decreasing; the channel closes exactly once, after
//! a final 100% event on success, or immediately and without a
//! completion event on failure or cancellation.

use vstd::prelude::*;

verus! {

/// The percentage of a transfer after `done` of `total` bytes.
pub open spec fn percent_spec(done: u64, total: u64) -> int {
    done as int * 100 / total as int
}

/// Computes the whole-number percentage of a transfer.
pub fn percent(done: u64, total: u64) -> (p: u8)
    requires
        total > 0,
        done <= total,
    ensures
        p == percent_spec(done, total),
        p <= 100,
        (p == 100) == (done == total),
{
    let raw: u128 = (done as u128) * 100 / (total as u128);
    proof {
        assert(done as int * 100 / total as int <= 100 && (done as int * 100 / total as int == 100
            <==> done == total)) by (nonlinear_arith)
            requires
                total > 0,
                done <= total,
        {}
        assert(raw == percent_spec(done, total));
    }
    raw as u8
}

/// Later progress never reports a smaller percentage.
pub proof fn lemma_percent_monotone(d1: u64, d2: u64, total: u64)
    requires
        total > 0,
        d1 <= d2 <= total,
    ensures
        percent_spec(d1, total) <= percent_spec(d2, total),
{
    assert(d1 as int * 100 / total as int <= d2 as int * 100 / total as int)
        by (nonlinear_arith)
        requires
            total > 0,
            d1 <= d2,
    {}
}

/// The sending half of a progress channel.
pub struct ProgressTracker {
    last: u8,
    closed: bool,
}

impl ProgressTracker {
    /// The last percentage handed out, `0` before any was.
    pub closed spec fn last_emitted(self) -> u8 {
        self.last
    }

    /// Whether the channel was closed.
    pub closed spec fn is_closed(self) -> bool {
        self.closed
    }

    /// The last percentage handed out.
    pub fn current(&self) -> (p: u8)
        ensures
            p == self.last_emitted(),
    {
        self.last
    }

    /// Whether the channel was closed.
    pub fn channel_closed(&self) -> (r: bool)
        ensures
            r == self.is_closed(),
    {
        self.closed
    }

    /// An open channel on which nothing was reported yet.
    pub fn new() -> (t: Self)
        ensures
            t.last_emitted() == 0,
            !t.is_closed(),
    {
        ProgressTracker { last: 0, closed: false }
    }

    /// Decides whether the transfer position `done` of `total` is worth an
    /// event. An event is handed out exactly when the percentage grew, so
    /// the emitted stream is strictly increasing.
    pub fn update(&mut self, done: u64, total: u64) -> (e: Option<u8>)
        requires
            !old(self).is_closed(),
            total > 0,
            done <= total,
        ensures
            !final(self).is_closed(),
            percent_spec(done, total) > old(self).last_emitted() ==> e == Some(
                percent_spec(done, total) as u8,
            ) && final(self).last_emitted() == percent_spec(done, total),
            percent_spec(done, total) <= old(self).last_emitted() ==> e is None
                && final(self).last_emitted() == old(self).last_emitted(),
            final(self).last_emitted() >= old(self).last_emitted(),
            e matches Some(p) ==> p > old(self).last_emitted() && p <= 100,
    {
        let p = percent(done, total);
        if p > self.last {
            self.last = p;
            Some(p)
        } else {
            None
        }
    }

    /// Closes the channel after a successful transfer, with a final 100%
    /// event unless one was already emitted.
    pub fn finish_success(&mut self) -> (e: Option<u8>)
        requires
            !old(self).is_closed(),
        ensures
            final(self).is_closed(),
            final(self).last_emitted() == 100,
            old(self).last_emitted() == 100 ==> e is None,
            old(self).last_emitted() < 100 ==> e == Some(100u8),
    {
        self.closed = true;
        let e: Option<u8> = if self.last < 100 {
            Some(100)
        } else {
            None
        };
        self.last = 100;
        e
    }

    /// Closes the channel at once after a failure or a cancellation: no
    /// completion event is emitted.
    pub fn abort(&mut self)
        requires
            !old(self).is_closed(),
        ensures
            final(self).is_closed(),
            final(self).last_emitted() == old(self).last_emitted(),
    {
        self.closed = true;
    }
}

} // verus!
