//! The phases of a state's lifecycle, the named task sets of its activation
//! schedule, and the rules and steps that tie them together.
use vstd::prelude::*;

verus! {

/// One named stage of a state's lifecycle.
#[derive(Clone, Copy, Debug, PartialEq, Eq, Structural)]
pub enum Phase {
    /// Runs on the first activation only.
    Startup,
    /// Runs on every activation.
    Enter,
    /// Runs on every tick while the state is active.
    Update,
    /// Runs on every deactivation.
    Exit,
}

/// The task sets of the activation schedule, in the order in which they run.
#[derive(Clone, Copy, Debug, PartialEq, Eq, Structural)]
pub enum StateSets {
    /// The startup tasks.
    StartupEnter,
    /// The barrier that commits what the startup tasks deferred.
    StartupEnterFlush,
    /// The enter tasks.
    Enter,
    /// The barrier that commits what the enter tasks deferred.
    EnterFlush,
}

/// Position of a set in the activation schedule.
pub open spec fn set_rank(s: StateSets) -> int {
    match s {
        StateSets::StartupEnter => 0,
        StateSets::StartupEnterFlush => 1,
        StateSets::Enter => 2,
        StateSets::EnterFlush => 3,
    }
}

/// A rule that the activation schedule of a state is given.
#[derive(Clone, Copy, Debug, PartialEq, Eq, Structural)]
pub enum Rule {
    /// The set runs at most once for the life of the installation.
    RunOnce(StateSets),
    /// The first set completes before the second one begins.
    Order(StateSets, StateSets),
    /// The set holds a barrier that commits deferred mutations.
    Flush(StateSets),
}

/// One unit of work carried out by the lifecycle.
#[derive(Clone, Copy, Debug, PartialEq, Eq, Structural)]
pub enum Step {
    /// The task at `index` of the group of `phase`, in declared order.
    Run { phase: Phase, index: usize },
    /// The barrier of a set: deferred mutations are committed.
    Flush(StateSets),
}

} // verus!
