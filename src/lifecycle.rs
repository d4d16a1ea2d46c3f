//! The lifecycle of one installed flow: what runs, and in what order, when
//! the state is activated, on each tick while it is active, and when it is
//! deactivated.
//!
//! An activation walks the sets of the activation schedule in order. A set
//! runs its tasks and, where a rule gives it one, its barrier; a set under a
//! run-once rule is skipped once it has run. Each installation keeps its own
//! guards.
use vstd::prelude::*;
use crate::builder::Installation;
use crate::phase::{Phase, Rule, StateSets, Step};

verus! {

/// Which sets have used up their single run.
#[derive(Clone, Copy, Debug, PartialEq, Eq, Structural)]
pub struct Guards {
    pub startup_enter: bool,
    pub startup_enter_flush: bool,
    pub enter: bool,
    pub enter_flush: bool,
}

impl Guards {
    /// Whether the set `s` has used up its single run.
    pub open spec fn fired(self, s: StateSets) -> bool {
        match s {
            StateSets::StartupEnter => self.startup_enter,
            StateSets::StartupEnterFlush => self.startup_enter_flush,
            StateSets::Enter => self.enter,
            StateSets::EnterFlush => self.enter_flush,
        }
    }

    /// No set has run yet.
    pub open spec fn none() -> Guards {
        Guards { startup_enter: false, startup_enter_flush: false, enter: false, enter_flush: false }
    }

    fn is_fired(&self, s: StateSets) -> (r: bool)
        ensures
            r == self.fired(s),
    {
        match s {
            StateSets::StartupEnter => self.startup_enter,
            StateSets::StartupEnterFlush => self.startup_enter_flush,
            StateSets::Enter => self.enter,
            StateSets::EnterFlush => self.enter_flush,
        }
    }
}

/// Something the host's state machine reports about one state value.
#[derive(Clone, Copy, Debug, PartialEq, Eq, Structural)]
pub enum Event {
    /// The state becomes the active one.
    Activate,
    /// A scheduling tick passes.
    Tick,
    /// The state stops being the active one.
    Deactivate,
}

/// What an installed flow's lifecycle consists of.
pub ghost struct LifeState {
    pub rules: Seq<Rule>,
    pub startup: usize,
    pub enter: usize,
    pub update: usize,
    pub exit: usize,
    pub guards: Guards,
    pub active: bool,
}

/// The lifecycle of one installed flow. Tasks are known by their phase and
/// their index in declared order.
pub struct Lifecycle {
    rules: Vec<Rule>,
    startup: usize,
    enter: usize,
    update: usize,
    exit: usize,
    guards: Guards,
    active: bool,
}

impl View for Lifecycle {
    type V = LifeState;

    closed spec fn view(&self) -> LifeState {
        LifeState {
            rules: self.rules@,
            startup: self.startup,
            enter: self.enter,
            update: self.update,
            exit: self.exit,
            guards: self.guards,
            active: self.active,
        }
    }
}

/// The tasks of a group of `n` tasks, in declared order.
pub open spec fn block(phase: Phase, n: usize) -> Seq<Step> {
    Seq::new(n as nat, |i: int| Step::Run { phase, index: i as usize })
}

/// The tasks that the set `s` holds.
pub open spec fn set_tasks(ls: LifeState, s: StateSets) -> Seq<Step> {
    match s {
        StateSets::StartupEnter => block(Phase::Startup, ls.startup),
        StateSets::Enter => block(Phase::Enter, ls.enter),
        _ => seq![],
    }
}

/// What the set `s` runs when it runs: its tasks, then its barrier if a rule
/// gives it one.
pub open spec fn set_members(ls: LifeState, s: StateSets) -> Seq<Step> {
    set_tasks(ls, s) + if ls.rules.contains(Rule::Flush(s)) {
        seq![Step::Flush(s)]
    } else {
        seq![]
    }
}

/// Whether a rule limits the set `s` to a single run.
pub open spec fn set_guarded(ls: LifeState, s: StateSets) -> bool {
    ls.rules.contains(Rule::RunOnce(s))
}

/// Whether the set `s` runs on an activation from `ls`.
pub open spec fn set_runs(ls: LifeState, s: StateSets) -> bool {
    set_members(ls, s).len() > 0 && !(set_guarded(ls, s) && ls.guards.fired(s))
}

/// Whether an activation from `ls` uses up the single run of the set `s`.
pub open spec fn set_fires(ls: LifeState, s: StateSets) -> bool {
    set_runs(ls, s) && set_guarded(ls, s)
}

/// What the set `s` contributes to an activation from `ls`.
pub open spec fn set_output(ls: LifeState, s: StateSets) -> Seq<Step> {
    if set_runs(ls, s) {
        set_members(ls, s)
    } else {
        seq![]
    }
}

/// What an activation from `ls` runs: the sets in schedule order.
pub open spec fn activation_output(ls: LifeState) -> Seq<Step> {
    set_output(ls, StateSets::StartupEnter) + set_output(ls, StateSets::StartupEnterFlush)
        + set_output(ls, StateSets::Enter) + set_output(ls, StateSets::EnterFlush)
}

/// The state after an activation from `ls`.
pub open spec fn activated(ls: LifeState) -> LifeState {
    LifeState {
        guards: Guards {
            startup_enter: ls.guards.startup_enter || set_fires(ls, StateSets::StartupEnter),
            startup_enter_flush: ls.guards.startup_enter_flush || set_fires(
                ls,
                StateSets::StartupEnterFlush,
            ),
            enter: ls.guards.enter || set_fires(ls, StateSets::Enter),
            enter_flush: ls.guards.enter_flush || set_fires(ls, StateSets::EnterFlush),
        },
        active: true,
        ..ls
    }
}

/// What runs on the event `e` from `ls`. An activation of an active state
/// and a deactivation of an inactive one are no transitions: nothing runs.
pub open spec fn event_output(ls: LifeState, e: Event) -> Seq<Step> {
    match e {
        Event::Activate => if ls.active {
            seq![]
        } else {
            activation_output(ls)
        },
        Event::Tick => if ls.active {
            block(Phase::Update, ls.update)
        } else {
            seq![]
        },
        Event::Deactivate => if ls.active {
            block(Phase::Exit, ls.exit)
        } else {
            seq![]
        },
    }
}

/// The state after the event `e` from `ls`.
pub open spec fn event_state(ls: LifeState, e: Event) -> LifeState {
    match e {
        Event::Activate => if ls.active {
            ls
        } else {
            activated(ls)
        },
        Event::Tick => ls,
        Event::Deactivate => LifeState { active: false, ..ls },
    }
}

/// What runs over the events `events` from `ls`, in order.
pub open spec fn trace(ls: LifeState, events: Seq<Event>) -> Seq<Step>
    decreases events.len(),
{
    if events.len() == 0 {
        seq![]
    } else {
        event_output(ls, events[0]) + trace(event_state(ls, events[0]), events.drop_first())
    }
}

/// The state after the events `events` from `ls`.
pub open spec fn state_after(ls: LifeState, events: Seq<Event>) -> LifeState
    decreases events.len(),
{
    if events.len() == 0 {
        ls
    } else {
        state_after(event_state(ls, events[0]), events.drop_first())
    }
}

/// The lifecycle of a newly installed flow: inactive, no set has run.
pub open spec fn fresh(rules: Seq<Rule>, startup: usize, enter: usize, update: usize, exit: usize) -> LifeState {
    LifeState { rules, startup, enter, update, exit, guards: Guards::none(), active: false }
}

fn has_rule(rules: &Vec<Rule>, r: Rule) -> (b: bool)
    ensures
        b == rules@.contains(r),
{
    let mut i: usize = 0;
    while i < rules.len()
        invariant
            0 <= i <= rules@.len(),
            forall|j: int| 0 <= j < i ==> rules@[j] != r,
        decreases rules@.len() - i,
    {
        if rules[i] == r {
            assert(rules@[i as int] == r);
            return true;
        }
        i = i + 1;
    }
    proof {
        if rules@.contains(r) {
            let j = choose|j: int| 0 <= j < rules@.len() && rules@[j] == r;
            assert(rules@[j] != r);
        }
    }
    false
}

fn push_block(out: &mut Vec<Step>, phase: Phase, n: usize)
    ensures
        final(out)@ == old(out)@ + block(phase, n),
{
    let ghost start = out@;
    let mut i: usize = 0;
    while i < n
        invariant
            0 <= i <= n,
            out@ == start + block(phase, i),
        decreases n - i,
    {
        out.push(Step::Run { phase, index: i });
        assert(start + block(phase, (i + 1) as usize) =~= start + block(phase, i).push(
            Step::Run { phase, index: i },
        ));
        i = i + 1;
    }
}

impl Lifecycle {
    /// The lifecycle of a newly installed flow.
    pub fn new<State, T>(installation: &Installation<State, T>) -> (r: Lifecycle)
        ensures
            r@ == fresh(
                installation.rules@,
                installation.groups.startup@.len() as usize,
                installation.groups.enter@.len() as usize,
                installation.groups.update@.len() as usize,
                installation.groups.exit@.len() as usize,
            ),
    {
        Lifecycle {
            rules: installation.rules.clone(),
            startup: installation.groups.startup.len(),
            enter: installation.groups.enter.len(),
            update: installation.groups.update.len(),
            exit: installation.groups.exit.len(),
            guards: Guards {
                startup_enter: false,
                startup_enter_flush: false,
                enter: false,
                enter_flush: false,
            },
            active: false,
        }
    }

    /// Whether the state is the active one.
    pub fn is_active(&self) -> (r: bool)
        ensures
            r == self@.active,
    {
        self.active
    }

    /// Appends what the set `s` contributes to an activation; tells whether
    /// that uses up its single run.
    fn append_set(&self, s: StateSets, out: &mut Vec<Step>) -> (fires: bool)
        ensures
            final(out)@ == old(out)@ + set_output(self@, s),
            fires == set_fires(self@, s),
    {
        let n: usize = match s {
            StateSets::StartupEnter => self.startup,
            StateSets::Enter => self.enter,
            _ => 0,
        };
        let flush = has_rule(&self.rules, Rule::Flush(s));
        let guarded = has_rule(&self.rules, Rule::RunOnce(s));
        let phase = match s {
            StateSets::Enter => Phase::Enter,
            _ => Phase::Startup,
        };
        proof {
            assert(set_tasks(self@, s) =~= block(phase, n));
        }
        let runs = (n > 0 || flush) && !(guarded && self.guards.is_fired(s));
        if runs {
            let ghost before = out@;
            push_block(out, phase, n);
            if flush {
                out.push(Step::Flush(s));
            }
            assert(out@ =~= before + set_output(self@, s));
        } else {
            assert(set_output(self@, s) =~= seq![]);
            assert(out@ =~= old(out)@ + set_output(self@, s));
        }
        runs && guarded
    }

    /// The state becomes the active one: runs the activation schedule and
    /// uses up the single run of each guarded set that ran. Nothing runs if
    /// the state is active already.
    pub fn activate(&mut self) -> (r: Vec<Step>)
        ensures
            r@ == event_output(old(self)@, Event::Activate),
            final(self)@ == event_state(old(self)@, Event::Activate),
    {
        let mut out: Vec<Step> = Vec::new();
        if self.active {
            assert(out@ =~= seq![]);
            return out;
        }
        let a = self.append_set(StateSets::StartupEnter, &mut out);
        let b = self.append_set(StateSets::StartupEnterFlush, &mut out);
        let c = self.append_set(StateSets::Enter, &mut out);
        let d = self.append_set(StateSets::EnterFlush, &mut out);
        assert(out@ =~= activation_output(self@));
        self.guards = Guards {
            startup_enter: self.guards.startup_enter || a,
            startup_enter_flush: self.guards.startup_enter_flush || b,
            enter: self.guards.enter || c,
            enter_flush: self.guards.enter_flush || d,
        };
        self.active = true;
        out
    }

    /// A tick passes: the update tasks run, in declared order, if the state
    /// is active.
    pub fn tick(&self) -> (r: Vec<Step>)
        ensures
            r@ == event_output(self@, Event::Tick),
    {
        let mut out: Vec<Step> = Vec::new();
        if self.active {
            push_block(&mut out, Phase::Update, self.update);
            assert(out@ =~= block(Phase::Update, self.update));
        } else {
            assert(out@ =~= seq![]);
        }
        out
    }

    /// The state stops being the active one: the exit tasks run, in declared
    /// order. Nothing runs if the state is inactive already.
    pub fn deactivate(&mut self) -> (r: Vec<Step>)
        ensures
            r@ == event_output(old(self)@, Event::Deactivate),
            final(self)@ == event_state(old(self)@, Event::Deactivate),
    {
        let mut out: Vec<Step> = Vec::new();
        if self.active {
            push_block(&mut out, Phase::Exit, self.exit);
            assert(out@ =~= block(Phase::Exit, self.exit));
        } else {
            assert(out@ =~= seq![]);
        }
        self.active = false;
        out
    }

    /// Handles one event of the host's state machine.
    pub fn handle(&mut self, e: Event) -> (r: Vec<Step>)
        ensures
            r@ == event_output(old(self)@, e),
            final(self)@ == event_state(old(self)@, e),
    {
        match e {
            Event::Activate => self.activate(),
            Event::Tick => self.tick(),
            Event::Deactivate => self.deactivate(),
        }
    }
}

} // verus!
