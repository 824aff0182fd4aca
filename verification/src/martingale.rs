//! The bounded-history retracement engine and its martingale position
//! sizing.
//!
//! Prices and sizes are carried as fixed-point integers in milli-units: a
//! stored value of 1000 stands for 1.0. The inverse golden ratio threshold
//! 0.618 is the stored constant 618. The engine keeps a sliding window of
//! the 16 most recent price observations; a drop from the oldest to the
//! newest observation deeper than the threshold signals a retracement (an
//! anti-clockwise curl), on which the position size doubles.
//!
//! The doubling rule is an explicit martingale: exposure grows geometrically
//! on each qualifying adverse move with no built-in ceiling of its own.
//! Machine arithmetic forces the one bound stated here (the size
//! must fit when doubled); a production deployment must cap the doublings
//! through an external risk collaborator.

use std::collections::VecDeque;

use vstd::prelude::*;

use crate::text::push_decimal;
use crate::text::spec_decimal;

verus! {

/// Capacity of the observation window.
pub const WINDOW_CAP: usize = 16;

/// The retracement threshold in milli-units: 0.618, the inverse golden
/// ratio, used as a Fibonacci retracement level.
pub const FIB_MILLI: u64 = 618;

/// The retracement engine: a bounded window of price observations and a
/// martingale-sized position.
pub struct Martingale {
    /// Position size in milli-units; starts at 1000 (one unit).
    pub size: u64,
    /// The retracement threshold in milli-units.
    pub fib: u64,
    /// The observation window, oldest first.
    pub nodes: VecDeque<i64>,
    /// Every price ever observed, in arrival order.
    pub history: Ghost<Seq<i64>>,
}

/// Where the window starts in the observation history: at the beginning
/// until the history exceeds the window capacity, then sliding.
pub open spec fn spec_window_start(len: nat) -> int {
    if len <= WINDOW_CAP {
        0
    } else {
        len - WINDOW_CAP
    }
}

/// The window holds exactly the most recent observations, in arrival order,
/// and the threshold is the stored inverse golden ratio.
pub open spec fn martingale_wf(m: Martingale) -> bool {
    &&& m.fib == FIB_MILLI
    &&& m.nodes@ == m.history@.subrange(
        spec_window_start(m.history@.len()),
        m.history@.len() as int,
    )
}

/// A window delta signals a retracement when the newest observation sits
/// more than the threshold below the oldest one in the window.
pub open spec fn spec_curl(window: Seq<i64>) -> bool {
    window.len() >= 2 && window.last() - window.first() < -(FIB_MILLI as int)
}

/// Once more observations have arrived than the window holds, the window
/// holds exactly the sixteen most recent observations, in arrival order.
pub proof fn lemma_window_holds_recent(m: Martingale)
    requires
        martingale_wf(m),
        m.history@.len() > WINDOW_CAP,
    ensures
        m.nodes@.len() == WINDOW_CAP,
        m.nodes@ == m.history@.subrange(
            m.history@.len() - WINDOW_CAP,
            m.history@.len() as int,
        ),
{
}

impl Martingale {
    /// A fresh engine: unit position size, the inverse golden ratio
    /// threshold, and an empty window.
    pub fn new() -> (r: Martingale)
        ensures
            r.size == 1000,
            r.fib == FIB_MILLI,
            r.nodes@ == Seq::<i64>::empty(),
            r.history@ == Seq::<i64>::empty(),
            martingale_wf(r),
    {
        let r = Martingale {
            size: 1000,
            fib: FIB_MILLI,
            nodes: VecDeque::new(),
            history: Ghost(Seq::empty()),
        };
        proof {
            assert(r.history@.subrange(0, 0) =~= Seq::<i64>::empty());
        }
        r
    }

    /// Double the position size on a qualifying adverse move: a delta deeper
    /// than the negative threshold doubles the size, anything else leaves it
    /// unchanged. The doubled size must fit the machine word; there is no
    /// other ceiling.
    pub fn hedge_double(&mut self, delta: i64)
        requires
            delta < -(FIB_MILLI as i64) ==> old(self).size <= u64::MAX / 2,
        ensures
            final(self).size == (if delta < -(FIB_MILLI as int) {
                2 * old(self).size
            } else {
                old(self).size as int
            }),
            final(self).fib == old(self).fib,
            final(self).nodes == old(self).nodes,
            final(self).history == old(self).history,
    {
        if delta < -618 {
            self.size = self.size * 2;
        }
    }

    /// Record one price observation. The oldest observation is evicted once
    /// the window is at capacity, so the window always holds the most recent
    /// observations in arrival order. Returns true exactly when the window
    /// now signals a retracement: at least two observations, and the newest
    /// more than the threshold below the oldest.
    pub fn curl_detect(&mut self, new_price: i64, _rod_tension: i64) -> (r: bool)
        requires
            martingale_wf(*old(self)),
        ensures
            martingale_wf(*final(self)),
            final(self).history@ == old(self).history@.push(new_price),
            final(self).size == old(self).size,
            final(self).fib == old(self).fib,
            r == spec_curl(final(self).nodes@),
    {
        if self.nodes.len() >= WINDOW_CAP {
            self.nodes.pop_front();
        }
        self.nodes.push_back(new_price);
        proof {
            let h = self.history@;
            self.history@ = h.push(new_price);
            assert(self.nodes@ =~= self.history@.subrange(
                spec_window_start(self.history@.len()),
                self.history@.len() as int,
            ));
        }
        if self.nodes.len() >= 2 {
            let newest = self.nodes[self.nodes.len() - 1];
            let oldest = self.nodes[0];
            let delta: i128 = (newest as i128) - (oldest as i128);
            if delta < -(FIB_MILLI as i128) {
                return true;
            }
        }
        false
    }

    /// Whether the window is in a burn-eligible alignment. The alignment
    /// predicate is a stub: unconditionally yes.
    pub fn tangent_burn(&self) -> (r: bool)
        ensures
            r,
    {
        true
    }

    /// The burn notification line for a caller-supplied amount, for the
    /// caller to hand to the token-burn collaborator.
    pub fn burn_lamports(&self, amount: u64) -> (r: String)
        ensures
            r@ == "Burned "@ + spec_decimal(amount as nat) + " lamports on tangent"@,
    {
        let mut out = String::from_str("Burned ");
        push_decimal(&mut out, amount);
        out.append(" lamports on tangent");
        out
    }
}

} // verus!
