//! Dealing with player input.

use vstd::prelude::*;
use std::collections::VecDeque;
use crate::state::Tick;

verus! {

/// High-level description of the input.
///
/// This describes the input in terms of gameplay actions rather than signals
/// from human interface devices.  Generating abstract input requires
/// knowledge about the control mapping that the player configured and the
/// user interface elements that are being displayed.
pub struct AbstractInput {
    /// Move in the facing direction.
    pub move_forward: bool,
    /// Move against the facing direction.
    pub move_backward: bool,
    /// Move sideways to the left.
    pub strafe_left: bool,
    /// Move sideways to the right.
    pub strafe_right: bool,
}

/// The number of leading entries whose tick is older than `tick`.
///
/// On a tick-sorted sequence this is the partition point: everything before
/// it is older than `tick`, everything from it on is not.
pub open spec fn stale_prefix_len<T>(s: Seq<(Tick, T)>, tick: Tick) -> int
    decreases s.len(),
{
    if s.len() == 0 {
        0
    } else if s[0].0.0 < tick.0 {
        1 + stale_prefix_len(s.skip(1), tick)
    } else {
        0
    }
}

/// Buffer of recent inputs for server reconciliation.
///
/// Entries are kept in chronological order: ticks increase strictly from the
/// front of the buffer to the back.
pub struct ReconciliationBuffer<T> {
    queue: VecDeque<(Tick, T)>,
}

impl<T> ReconciliationBuffer<T> {
    /// The buffered entries, oldest first.
    pub closed spec fn entries(&self) -> Seq<(Tick, T)> {
        self.queue@
    }

    /// Ticks increase strictly from front to back.
    pub open spec fn wf(&self) -> bool {
        forall|i: int, j: int|
            0 <= i < j < self.entries().len() ==> self.entries()[i].0.0 < self.entries()[j].0.0
    }

    /// Create a new buffer with no entries.
    pub fn new() -> (r: Self)
        ensures
            r.wf(),
            r.entries().len() == 0,
    {
        Self { queue: VecDeque::new() }
    }

    /// Insert an entry at the end of the buffer.
    ///
    /// The tick must be newer than every buffered entry's tick, so that the
    /// buffer stays in chronological order.
    pub fn push(&mut self, tick: Tick, input: T)
        requires
            old(self).wf(),
            old(self).entries().len() > 0 ==> old(self).entries().last().0.0 < tick.0,
        ensures
            final(self).wf(),
            final(self).entries() == old(self).entries().push((tick, input)),
    {
        self.queue.push_back((tick, input));
        proof {
            let s = self.entries();
            let n = old(self).entries().len() as int;
            assert forall|i: int, j: int| 0 <= i < j < s.len() implies s[i].0.0 < s[j].0.0 by {
                if j < n {
                    assert(old(self).entries()[i].0.0 < old(self).entries()[j].0.0);
                } else {
                    assert(s[j].0.0 == tick.0);
                    if i < n - 1 {
                        assert(old(self).entries()[i].0.0 < old(self).entries()[n - 1].0.0);
                    }
                }
            }
        }
    }

    /// Remove all buffer entries with a tick older than `tick`.
    pub fn drain(&mut self, tick: Tick)
        requires
            old(self).wf(),
        ensures
            final(self).wf(),
            final(self).entries() == old(self).entries().skip(
                stale_prefix_len(old(self).entries(), tick),
            ),
            forall|i: int|
                0 <= i < final(self).entries().len() ==> (#[trigger] final(self).entries()[i]).0.0
                    >= tick.0,
    {
        let ghost s0 = self.entries();
        proof {
            assert(s0.skip(0) =~= s0);
            assert(0 <= 0 <= s0.len() && self.entries() == s0.skip(0) && stale_prefix_len(
                s0,
                tick,
            ) == 0 + stale_prefix_len(s0.skip(0), tick));
        }
        while self.queue.len() != 0 && self.queue[0].0.0 < tick.0
            invariant
                self.wf(),
                exists|k: int|
                    0 <= k <= s0.len() && self.entries() == s0.skip(k) && stale_prefix_len(
                        s0,
                        tick,
                    ) == k + stale_prefix_len(#[trigger] s0.skip(k), tick),
            decreases self.queue@.len(),
        {
            let ghost pre = self.entries();
            let ghost k = choose|k: int|
                0 <= k <= s0.len() && pre == s0.skip(k) && stale_prefix_len(s0, tick) == k
                    + stale_prefix_len(#[trigger] s0.skip(k), tick);
            self.queue.pop_front();
            proof {
                assert(self.entries() =~= pre.skip(1));
                assert(pre.skip(1) =~= s0.skip(k + 1));
                assert(stale_prefix_len(pre, tick) == 1 + stale_prefix_len(pre.skip(1), tick));
                assert(0 <= k + 1 <= s0.len() && self.entries() == s0.skip(k + 1)
                    && stale_prefix_len(s0, tick) == (k + 1) + stale_prefix_len(
                    s0.skip(k + 1),
                    tick,
                ));
            }
        }
        proof {
            let k = choose|k: int|
                0 <= k <= s0.len() && self.entries() == s0.skip(k) && stale_prefix_len(
                    s0,
                    tick,
                ) == k + stale_prefix_len(#[trigger] s0.skip(k), tick);
            assert(stale_prefix_len(self.entries(), tick) == 0);
            assert(self.entries() == s0.skip(stale_prefix_len(s0, tick)));
            assert forall|i: int|
                0 <= i < self.entries().len() implies (#[trigger] self.entries()[i]).0.0
                >= tick.0 by {
                if i > 0 {
                    assert(self.entries()[0].0.0 < self.entries()[i].0.0);
                }
            }
        }
    }

    /// The entries in the buffer, in chronological order.
    pub fn iter(&self) -> (r: Vec<(Tick, &T)>)
        ensures
            r@.len() == self.entries().len(),
            forall|i: int|
                0 <= i < r@.len() ==> (#[trigger] r@[i]).0 == self.entries()[i].0 && *r@[i].1
                    == self.entries()[i].1,
    {
        let mut out: Vec<(Tick, &T)> = Vec::new();
        let mut i: usize = 0;
        while i < self.queue.len()
            invariant
                i <= self.queue@.len(),
                out@.len() == i,
                forall|j: int|
                    0 <= j < i ==> (#[trigger] out@[j]).0 == self.queue@[j].0 && *out@[j].1
                        == self.queue@[j].1,
            decreases self.queue@.len() - i,
        {
            let entry = &self.queue[i];
            out.push((entry.0, &entry.1));
            i += 1;
        }
        out
    }

    /// The oldest tick for which entries exist in the buffer.
    ///
    /// If the buffer is empty, this method returns [`None`].
    pub fn oldest(&self) -> (r: Option<Tick>)
        ensures
            self.entries().len() == 0 ==> r is None,
            self.entries().len() > 0 ==> r == Some(self.entries()[0].0),
    {
        if self.queue.len() == 0 {
            None
        } else {
            Some(self.queue[0].0)
        }
    }
}

} // verus!
