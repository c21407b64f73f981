//! Choosing the worker's port: candidates of a half-open range are tried in
//! increasing order, and the first one that can be bound is taken.
//!
//! The binding itself is done by the caller. A scan names the next candidate,
//! the caller tries to bind it, releases it at once and reports whether the
//! bind succeeded.
//!
//! The chosen port is not reserved: another process may bind it between the
//! release and the worker's own bind. The worker then never becomes reachable,
//! which shows as a readiness timeout.

use vstd::prelude::*;

verus! {

/// No candidate of `[start, end)` could be bound.
#[derive(Clone, Copy, Debug, PartialEq, Eq, Structural)]
pub enum AllocError {
    NoFreePort { start: u16, end: u16 },
}

/// What the caller does next.
#[derive(Clone, Copy, Debug, PartialEq, Eq, Structural)]
pub enum ScanAction {
    /// Try to bind this port on the loopback address, then report the result.
    TryBind(u16),
    /// This port could be bound: it is the chosen port.
    Found(u16),
    /// Every candidate was refused.
    Exhausted(AllocError),
}

/// A scan of the candidates `[start, end)`.
pub struct PortScan {
    pub start: u16,
    pub end: u16,
    /// The candidate tried next; every one before it was refused.
    pub next: u16,
    /// The chosen port, once a bind succeeded.
    pub found: Option<u16>,
}

/// The first port of `[next, end)` on which `bindable` holds.
pub open spec fn first_free(next: int, end: int, bindable: spec_fn(int) -> bool) -> Option<int>
    decreases end - next,
{
    if next >= end {
        None
    } else if bindable(next) {
        Some(next)
    } else {
        first_free(next + 1, end, bindable)
    }
}

impl PortScan {
    pub open spec fn wf(&self) -> bool {
        &&& self.start <= self.next
        &&& self.start < self.end ==> self.next <= self.end
        &&& self.start >= self.end ==> self.next == self.start
        &&& self.found matches Some(p) ==> p == self.next && p < self.end
    }

    /// A candidate has been named and its bind result is awaited.
    pub open spec fn pending(&self) -> bool {
        self.found is None && self.next < self.end
    }


    /// The action that the scan asks for in its present state.
    pub open spec fn next_action(&self) -> ScanAction {
        match self.found {
            Some(p) => ScanAction::Found(p),
            None => if self.next < self.end {
                ScanAction::TryBind(self.next)
            } else {
                ScanAction::Exhausted(AllocError::NoFreePort { start: self.start, end: self.end })
            },
        }
    }

    /// The scan after the bind result `bound` for the pending candidate; a
    /// result that nothing awaits changes nothing.
    pub open spec fn after(&self, bound: bool) -> PortScan {
        if !self.pending() {
            *self
        } else if bound {
            PortScan { found: Some(self.next), ..*self }
        } else {
            PortScan { next: (self.next + 1) as u16, ..*self }
        }
    }

    /// The port that the scan ends with when each bind of a candidate `p`
    /// succeeds exactly when `bindable(p)`.
    pub open spec fn outcome(&self, bindable: spec_fn(int) -> bool) -> Option<int> {
        match self.found {
            Some(p) => Some(p as int),
            None => first_free(self.next as int, self.end as int, bindable),
        }
    }

    /// A scan of `[start, end)` that has tried nothing yet.
    pub fn new(start: u16, end: u16) -> (r: PortScan)
        ensures
            r.wf(),
            r.start == start,
            r.end == end,
            r.next == start,
            r.found is None,
    {
        PortScan { start, end, next: start, found: None }
    }

    /// What the caller does next.
    pub fn action(&self) -> (r: ScanAction)
        requires
            self.wf(),
        ensures
            r == self.next_action(),
    {
        match self.found {
            Some(p) => ScanAction::Found(p),
            None => if self.next < self.end {
                ScanAction::TryBind(self.next)
            } else {
                ScanAction::Exhausted(AllocError::NoFreePort { start: self.start, end: self.end })
            },
        }
    }

    /// Takes the bind result for the pending candidate and says what comes next.
    pub fn record(&mut self, bound: bool) -> (r: ScanAction)
        requires
            old(self).wf(),
        ensures
            *final(self) == old(self).after(bound),
            final(self).wf(),
            r == final(self).next_action(),
    {
        if self.found.is_none() && self.next < self.end {
            if bound {
                self.found = Some(self.next);
            } else {
                self.next = self.next + 1;
            }
        }
        self.action()
    }
}

/// A scan that is told the truth about each candidate keeps the port it will
/// end with.
pub proof fn lemma_truthful_step_keeps_outcome(s: PortScan, bindable: spec_fn(int) -> bool)
    requires
        s.wf(),
    ensures
        s.after(bindable(s.next as int)).outcome(bindable) == s.outcome(bindable),
{
}

/// A scan reports `Found(p)` only with the port it ends with, and
/// `Exhausted` only when it ends with none.
pub proof fn lemma_action_reports_outcome(s: PortScan, bindable: spec_fn(int) -> bool)
    requires
        s.wf(),
    ensures
        s.next_action() matches ScanAction::Found(p) ==> s.outcome(bindable) == Some(p as int),
        s.next_action() matches ScanAction::Exhausted(e) ==> s.outcome(bindable) is None
            && e == (AllocError::NoFreePort { start: s.start, end: s.end }),
{
}

/// A fresh scan ends with the first bindable port of its range.
pub proof fn lemma_fresh_scan_outcome(start: u16, end: u16, bindable: spec_fn(int) -> bool)
    ensures
        (PortScan { start, end, next: start, found: None }).outcome(bindable) == first_free(
            start as int,
            end as int,
            bindable,
        ),
{
}

/// Where some port of `[s, e)` can be bound, the scan chooses a port `p` of
/// the range that could be bound, and every candidate before `p` was refused.
pub proof fn lemma_allocator_correct(s: int, e: int, bindable: spec_fn(int) -> bool)
    requires
        exists|q: int| s <= q < e && #[trigger] bindable(q),
    ensures
        first_free(s, e, bindable) matches Some(p) && s <= p < e && bindable(p) && forall|q: int|
            s <= q < p ==> !#[trigger] bindable(q),
    decreases e - s,
{
    if !bindable(s) {
        let w = choose|q: int| s <= q < e && #[trigger] bindable(q);
        assert(s + 1 <= w < e && bindable(w));
        lemma_allocator_correct(s + 1, e, bindable);
    }
}

/// Where every port of `[s, e)` is already bound, the scan chooses none.
pub proof fn lemma_allocator_exhaustion(s: int, e: int, bindable: spec_fn(int) -> bool)
    requires
        forall|q: int| s <= q < e ==> !#[trigger] bindable(q),
    ensures
        first_free(s, e, bindable) is None,
    decreases e - s,
{
    if s < e {
        lemma_allocator_exhaustion(s + 1, e, bindable);
    }
}

} // verus!
