//! The choice of the port to serve on: the first port of a fixed window that
//! a probe finds free.
//!
//! Probing a port is the caller's work. The scan says which port to probe
//! next, takes the probe's outcome, and says when a port is found or the
//! window is used up.

use vstd::prelude::*;

verus! {

/// The port at which the server starts to look for a free one.
pub const FIRST_PORT: u16 = 3001;

/// The number of ports that are probed, from the first one upward.
pub const PORT_WINDOW: u16 = 100;

/// What to do next in a scan.
#[derive(Clone, Copy, Debug, PartialEq, Eq, Structural)]
pub enum Step {
    /// Probe this port and report the outcome.
    Probe(u16),
    /// This port was found free: serve on it.
    Serve(u16),
    /// No port of the window is free.
    GiveUp,
}

/// The mathematical form of a [`PortScan`]: where the window starts, how
/// many of its ports were found busy, and whether the port after those was
/// found free.
pub struct ScanView {
    pub start: int,
    pub busy: int,
    pub found: bool,
}

impl ScanView {
    /// The scan lies within its window, and the window within the ports.
    pub open spec fn wf(self) -> bool {
        &&& 0 <= self.start
        &&& self.start + PORT_WINDOW <= u16::MAX + 1
        &&& 0 <= self.busy <= PORT_WINDOW
        &&& self.found ==> self.busy < PORT_WINDOW
    }

    /// A scan of the window that starts at `start`, before any probe.
    pub open spec fn begin(start: int) -> ScanView {
        ScanView { start, busy: 0, found: false }
    }

    /// The scan has ended, with a port or without one.
    pub open spec fn ended(self) -> bool {
        self.found || self.busy >= PORT_WINDOW
    }

    /// What to do next.
    pub open spec fn step(self) -> Step {
        if self.found {
            Step::Serve((self.start + self.busy) as u16)
        } else if self.busy < PORT_WINDOW {
            Step::Probe((self.start + self.busy) as u16)
        } else {
            Step::GiveUp
        }
    }

    /// The scan after the outcome of probing its current port. A free port
    /// ends the scan; a busy one moves it to the next port of the window. A
    /// scan that has ended stays as it is.
    pub open spec fn after(self, free: bool) -> ScanView {
        if self.ended() {
            self
        } else if free {
            ScanView { found: true, ..self }
        } else {
            ScanView { busy: self.busy + 1, ..self }
        }
    }

    /// The scan after a series of probe outcomes, the earliest first.
    pub open spec fn run(self, outcomes: Seq<bool>) -> ScanView
        decreases outcomes.len(),
    {
        if outcomes.len() == 0 {
            self
        } else {
            self.run(outcomes.drop_last()).after(outcomes.last())
        }
    }
}

/// A scan for a free port in a window of `PORT_WINDOW` ports.
#[derive(Clone, Copy, Debug)]
pub struct PortScan {
    start: u16,
    busy: u16,
    found: bool,
}

impl View for PortScan {
    type V = ScanView;

    closed spec fn view(&self) -> ScanView {
        ScanView { start: self.start as int, busy: self.busy as int, found: self.found }
    }
}

impl PortScan {
    #[verifier::type_invariant]
    spec fn inv(self) -> bool {
        self@.wf()
    }

    /// Starts a scan of the ports `start_port .. start_port + PORT_WINDOW`.
    /// The whole window has to lie within the port numbers.
    pub fn begin(start_port: u16) -> (scan: PortScan)
        requires
            start_port + PORT_WINDOW <= u16::MAX + 1,
        ensures
            scan@ == ScanView::begin(start_port as int),
            scan@.wf(),
    {
        PortScan { start: start_port, busy: 0, found: false }
    }

    /// What to do next: probe a port, serve on the port found, or give up.
    pub fn step(&self) -> (step: Step)
        ensures
            step == self@.step(),
            self@.wf(),
    {
        proof {
            use_type_invariant(self);
        }
        if self.found {
            Step::Serve(self.start + self.busy)
        } else if self.busy < PORT_WINDOW {
            Step::Probe(self.start + self.busy)
        } else {
            Step::GiveUp
        }
    }

    /// Takes the outcome of probing the current port: `free` tells whether
    /// the port could be bound.
    pub fn observe(self, free: bool) -> (next: PortScan)
        ensures
            next@ == self@.after(free),
            next@.wf(),
    {
        proof {
            use_type_invariant(&self);
        }
        if self.found || self.busy >= PORT_WINDOW {
            self
        } else if free {
            PortScan { start: self.start, busy: self.busy, found: true }
        } else {
            PortScan { start: self.start, busy: self.busy + 1, found: false }
        }
    }
}

/// A scan that has ended is not moved by further outcomes.
pub proof fn lemma_ended_scan_stays(scan: ScanView, outcomes: Seq<bool>)
    requires
        scan.ended(),
    ensures
        scan.run(outcomes) == scan,
    decreases outcomes.len(),
{
    if outcomes.len() > 0 {
        lemma_ended_scan_stays(scan, outcomes.drop_last());
    }
}

/// As long as every probe finds its port busy, the scan moves up the window
/// port by port, and gives up when the window is used up.
pub proof fn lemma_all_busy(start: int, outcomes: Seq<bool>)
    requires
        forall|i: int| 0 <= i < outcomes.len() ==> !outcomes[i],
    ensures
        ScanView::begin(start).run(outcomes) == (ScanView {
            start,
            busy: if outcomes.len() <= PORT_WINDOW {
                outcomes.len() as int
            } else {
                PORT_WINDOW as int
            },
            found: false,
        }),
    decreases outcomes.len(),
{
    if outcomes.len() > 0 {
        lemma_all_busy(start, outcomes.drop_last());
    }
}

/// The scan settles on the first port of its window that a probe finds
/// free: if the probes of the ports before the `k`-th all find them busy
/// and the probe of the `k`-th finds it free, the scan serves on that port,
/// whatever outcomes follow. If the probes of all ports of the window find
/// them busy, the scan gives up.
pub proof fn lemma_scan_takes_first_free(start: int, outcomes: Seq<bool>, k: int)
    requires
        0 <= start,
        start + PORT_WINDOW <= u16::MAX + 1,
        0 <= k <= outcomes.len(),
        k <= PORT_WINDOW,
        forall|i: int| 0 <= i < k ==> !outcomes[i],
        k < outcomes.len() ==> outcomes[k],
        k == outcomes.len() ==> k == PORT_WINDOW,
    ensures
        ScanView::begin(start).run(outcomes).step() == if k < PORT_WINDOW {
            Step::Serve((start + k) as u16)
        } else {
            Step::GiveUp
        },
{
    let scan = ScanView::begin(start);
    let quiet = outcomes.take(k);
    lemma_all_busy(start, quiet);
    if k < outcomes.len() && k < PORT_WINDOW {
        let found = outcomes.take(k + 1);
        assert(found.drop_last() =~= quiet);
        lemma_run_split(scan, outcomes, k + 1);
        lemma_ended_scan_stays(scan.run(found), outcomes.skip(k + 1));
    } else {
        lemma_run_split(scan, outcomes, k);
        lemma_ended_scan_stays(scan.run(quiet), outcomes.skip(k));
    }
}

/// Running a series of outcomes is running its first part and then the rest.
pub proof fn lemma_run_split(scan: ScanView, outcomes: Seq<bool>, k: int)
    requires
        0 <= k <= outcomes.len(),
    ensures
        scan.run(outcomes) == scan.run(outcomes.take(k)).run(outcomes.skip(k)),
    decreases outcomes.len(),
{
    if k == outcomes.len() {
        assert(outcomes.take(k) =~= outcomes);
    } else {
        let shorter = outcomes.drop_last();
        lemma_run_split(scan, shorter, k);
        assert(shorter.take(k) =~= outcomes.take(k));
        assert(outcomes.skip(k).drop_last() =~= shorter.skip(k));
    }
}

} // verus!
