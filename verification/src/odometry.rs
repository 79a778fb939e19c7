//! Bookkeeping of the encoder-count odometry: wrap-safe count deltas and the
//! consecutive CAN error count that triggers a bus reconnect.
use vstd::prelude::*;

verus! {

/// Consecutive CAN errors after which the bus is reconnected.
pub const MAX_CAN_ERRORS: u32 = 10;

/// Encoder counts moved from `prev` to `now` on a wrapping 32-bit counter.
pub fn position_delta(now: i32, prev: i32) -> (r: i32)
    ensures
        r == now.wrapping_sub(prev),
{
    now.wrapping_sub(prev)
}

/// Odometry state between two control cycles: the counts of the last healthy
/// reading (the baseline for the next delta) and the number of consecutive
/// CAN errors.
pub struct OdomTracker {
    pub last_counts: Option<(i32, i32)>,
    pub can_errors: u32,
}

impl OdomTracker {
    /// No baseline and no error yet.
    pub fn new() -> (t: Self)
        ensures
            t.last_counts is None,
            t.can_errors == 0,
    {
        OdomTracker { last_counts: None, can_errors: 0 }
    }

    /// A cycle whose CAN reads failed: one more error, and the baseline is
    /// dropped, since the counters may restart across a reconnect.
    pub fn record_fault(&mut self)
        requires
            old(self).can_errors < u32::MAX,
        ensures
            final(self).can_errors == old(self).can_errors + 1,
            final(self).last_counts is None,
    {
        self.can_errors = self.can_errors + 1;
        self.last_counts = None;
    }

    /// A failed velocity command: one more error, the baseline stays.
    pub fn record_command_error(&mut self)
        requires
            old(self).can_errors < u32::MAX,
        ensures
            final(self).can_errors == old(self).can_errors + 1,
            final(self).last_counts == old(self).last_counts,
    {
        self.can_errors = self.can_errors + 1;
    }

    /// A healthy cycle that read positions `left` and `right`: the error count
    /// restarts, the reading becomes the baseline, and the wrap-safe count
    /// deltas against the previous baseline are returned (none on the first
    /// reading).
    pub fn record_reading(&mut self, left: i32, right: i32) -> (deltas: Option<(i32, i32)>)
        ensures
            final(self).can_errors == 0,
            final(self).last_counts == Some((left, right)),
            deltas == match old(self).last_counts {
                Some((pl, pr)) => Some((left.wrapping_sub(pl), right.wrapping_sub(pr))),
                None => None::<(i32, i32)>,
            },
    {
        self.can_errors = 0;
        let deltas = match self.last_counts {
            Some((pl, pr)) => Some((position_delta(left, pl), position_delta(right, pr))),
            None => None,
        };
        self.last_counts = Some((left, right));
        deltas
    }

    /// Whether enough consecutive errors piled up to reconnect the bus.
    pub fn needs_reconnect(&self) -> (r: bool)
        ensures
            r == (self.can_errors >= MAX_CAN_ERRORS),
    {
        self.can_errors >= MAX_CAN_ERRORS
    }

    /// The bus came back: the error count restarts.
    pub fn reset_errors(&mut self)
        ensures
            final(self).can_errors == 0,
            final(self).last_counts == old(self).last_counts,
    {
        self.can_errors = 0;
    }
}

/// Wrap-safety: a counter that moved by `d` counts from `prev`, across the
/// `i32` boundary or not, gives back exactly `d`.
pub proof fn lemma_delta_is_wrap_safe(prev: i32, d: i32)
    ensures
        prev.wrapping_add(d).wrapping_sub(prev) == d,
{
    let now = prev.wrapping_add(d);
    assert(now.wrapping_sub(prev) == d) by (bit_vector)
        requires
            now == prev.wrapping_add(d),
    ;
}

} // verus!
