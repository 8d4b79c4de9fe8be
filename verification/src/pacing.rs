//! Inter-transaction pacing: the half-duplex bus needs a minimum idle gap
//! before every transaction, read or write alike.
//!
//! The pacer records the instant (in milliseconds on the caller's clock) at
//! which the last transaction was allowed to go out, and computes the
//! earliest instant for the next one. The caller must wait until the
//! returned instant before issuing the transaction.

use vstd::prelude::*;

verus! {

/// Minimum idle gap between consecutive bus transactions, in milliseconds.
pub const MIN_GAP_MS: u64 = 100;

/// Earliest instant at which a transaction may be issued, given the instant
/// the previous one was issued and the current time.
pub open spec fn issue_instant(last: u64, now: u64) -> int {
    if now >= last + MIN_GAP_MS {
        now as int
    } else {
        last + MIN_GAP_MS
    }
}

/// Tracks the instant of the last issued bus transaction.
#[derive(Copy, Clone, PartialEq, Eq, Structural, Debug)]
pub struct Pacer {
    /// Instant (ms) at which the last transaction was issued; zero before
    /// the first one.
    pub last_issue: u64,
}

impl Pacer {
    /// A pacer that has issued nothing yet.
    pub fn new() -> (p: Pacer)
        ensures
            p.last_issue == 0,
    {
        Pacer { last_issue: 0 }
    }

    /// The instant at which the next transaction may go out: the current
    /// time, pushed back until a full gap has passed since the last issue.
    /// The caller waits until the returned instant, then issues.
    pub fn schedule(&mut self, now: u64) -> (t: u64)
        requires
            old(self).last_issue + MIN_GAP_MS <= u64::MAX,
        ensures
            t == issue_instant(old(self).last_issue, now),
            final(self).last_issue == t,
    {
        let gap_end: u64 = self.last_issue + MIN_GAP_MS;
        let t: u64 = if now >= gap_end {
            now
        } else {
            gap_end
        };
        self.last_issue = t;
        t
    }
}

/// Law: every scheduled instant lies at least the minimum gap after the
/// previous issue and never before the current time. Since `schedule`
/// records the instant it returns, the instants of consecutive transactions
/// differ by at least the minimum gap, for any sequence of calls.
pub proof fn lemma_min_gap(last: u64, now: u64)
    ensures
        issue_instant(last, now) >= last + MIN_GAP_MS,
        issue_instant(last, now) >= now,
{
}

} // verus!
