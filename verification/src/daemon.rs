//! A model of the external telemetry engine's observable behaviour.
//!
//! The native SDK and its collector daemon are external collaborators: the
//! library never reproduces their internals.  What the verified code needs
//! to know about them is only which of the narrow capability calls succeed,
//! and that is fully determined by two observable facts: whether the daemon
//! connection can be established, and whether the SDK accepts the requested
//! log sink.  A [`Daemon`] value carries those two facts as plain values, so
//! every contract in the library can say exactly which results come back
//! for either outcome.  Code that drives the real engine constructs the
//! value from the outcome of the native calls; tests construct it directly.

use vstd::prelude::*;

verus! {

/// The observable state of the external telemetry engine.
#[derive(Debug, Clone, Copy, PartialEq, Eq, Structural)]
pub struct Daemon {
    reachable: bool,
    accepts_log: bool,
}

impl Daemon {
    /// Whether a connection to the collector daemon can be established
    /// within the configured timeout.
    pub closed spec fn is_reachable(self) -> bool {
        self.reachable
    }

    /// Whether the SDK accepts the requested log sink (for a file sink,
    /// whether the file can be opened).
    pub closed spec fn is_accepting_log(self) -> bool {
        self.accepts_log
    }

    /// Describe an engine whose daemon connection attempt had the given
    /// outcome and whose log sink request had the given outcome.
    pub fn new(reachable: bool, accepts_log: bool) -> (r: Daemon)
        ensures
            r.is_reachable() == reachable,
            r.is_accepting_log() == accepts_log,
    {
        Daemon { reachable, accepts_log }
    }

    /// Describe an engine that answers every request: the daemon is
    /// reachable and the log sink is accepted.
    pub fn responsive() -> (r: Daemon)
        ensures
            r.is_reachable(),
            r.is_accepting_log(),
    {
        Daemon { reachable: true, accepts_log: true }
    }

    /// Whether a connection to the collector daemon can be established.
    pub fn reachable(&self) -> (r: bool)
        ensures
            r == self.is_reachable(),
    {
        self.reachable
    }

    /// Whether the SDK accepts the requested log sink.
    pub fn accepting_log(&self) -> (r: bool)
        ensures
            r == self.is_accepting_log(),
    {
        self.accepts_log
    }
}

} // verus!
