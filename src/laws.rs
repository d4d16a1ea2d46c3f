//! What holds of every installed flow over any sequence of events.
use vstd::prelude::*;
use crate::graph::phase_rules;
use crate::lifecycle::{
    activated, activation_output, block, event_output, event_state, fresh, set_members,
    set_output, set_tasks, state_after, trace, Event, Guards, LifeState,
};
use crate::phase::{Phase, Rule, StateSets, Step};

verus! {

/// The lifecycle of a newly installed flow whose groups hold `startup`,
/// `enter`, `update` and `exit` tasks.
pub open spec fn installed(startup: usize, enter: usize, update: usize, exit: usize) -> LifeState {
    fresh(phase_rules(startup > 0, enter > 0), startup, enter, update, exit)
}

/// The startup tasks in declared order, then their barrier; nothing if there
/// are no startup tasks.
pub open spec fn startup_part(n: usize) -> Seq<Step> {
    if n > 0 {
        block(Phase::Startup, n).push(Step::Flush(StateSets::StartupEnterFlush))
    } else {
        seq![]
    }
}

/// The enter tasks in declared order, then their barrier; nothing if there
/// are no enter tasks.
pub open spec fn enter_part(n: usize) -> Seq<Step> {
    if n > 0 {
        block(Phase::Enter, n).push(Step::Flush(StateSets::EnterFlush))
    } else {
        seq![]
    }
}

/// `s` repeated `k` times.
pub open spec fn repeat(s: Seq<Step>, k: nat) -> Seq<Step>
    decreases k,
{
    if k == 0 {
        seq![]
    } else {
        s + repeat(s, (k - 1) as nat)
    }
}

/// How many of `events` are ticks that pass while the state is active, the
/// state being active at first when `active` holds.
pub open spec fn active_ticks(active: bool, events: Seq<Event>) -> nat
    decreases events.len(),
{
    if events.len() == 0 {
        0
    } else {
        let next = match events[0] {
            Event::Activate => true,
            Event::Tick => active,
            Event::Deactivate => false,
        };
        let rest = active_ticks(next, events.drop_first());
        if events[0] == Event::Tick && active {
            rest + 1
        } else {
            rest
        }
    }
}

/// Whether `s` is a step of an exit task.
pub open spec fn is_exit_step(s: Step) -> bool {
    match s {
        Step::Run { phase, .. } => phase == Phase::Exit,
        _ => false,
    }
}

/// No step of `s` is one of an exit task.
pub open spec fn no_exit_step(s: Seq<Step>) -> bool {
    forall|i: int| 0 <= i < s.len() ==> !is_exit_step(#[trigger] s[i])
}

/// What every state reached from a newly installed flow satisfies.
pub open spec fn reachable(ls: LifeState) -> bool {
    &&& ls.rules == phase_rules(ls.startup > 0, ls.enter > 0)
    &&& !ls.guards.enter
    &&& !ls.guards.enter_flush
    &&& ls.guards.startup_enter == ls.guards.startup_enter_flush
    &&& (ls.active && ls.startup > 0 ==> ls.guards.startup_enter)
}

/// The same flow as `b`: rules and group sizes agree.
pub open spec fn same_flow(a: LifeState, b: LifeState) -> bool {
    a.rules == b.rules && a.startup == b.startup && a.enter == b.enter && a.update == b.update
        && a.exit == b.exit
}

proof fn lemma_rules(hs: bool, he: bool)
    ensures
        ({
            let r = phase_rules(hs, he);
            &&& r.contains(Rule::RunOnce(StateSets::StartupEnter)) == hs
            &&& r.contains(Rule::RunOnce(StateSets::StartupEnterFlush)) == hs
            &&& !r.contains(Rule::RunOnce(StateSets::Enter))
            &&& !r.contains(Rule::RunOnce(StateSets::EnterFlush))
            &&& !r.contains(Rule::Flush(StateSets::StartupEnter))
            &&& r.contains(Rule::Flush(StateSets::StartupEnterFlush)) == hs
            &&& !r.contains(Rule::Flush(StateSets::Enter))
            &&& r.contains(Rule::Flush(StateSets::EnterFlush)) == he
        }),
{
    let r = phase_rules(hs, he);
    if hs && he {
        assert(r[0] == Rule::RunOnce(StateSets::StartupEnter));
        assert(r[1] == Rule::RunOnce(StateSets::StartupEnterFlush));
        assert(r[5] == Rule::Flush(StateSets::StartupEnterFlush));
        assert(r[6] == Rule::Flush(StateSets::EnterFlush));
    } else if hs {
        assert(r[0] == Rule::RunOnce(StateSets::StartupEnter));
        assert(r[1] == Rule::RunOnce(StateSets::StartupEnterFlush));
        assert(r[3] == Rule::Flush(StateSets::StartupEnterFlush));
    } else if he {
        assert(r[1] == Rule::Flush(StateSets::EnterFlush));
    }
}

proof fn lemma_activation(ls: LifeState)
    requires
        reachable(ls),
        !ls.active,
    ensures
        activation_output(ls) == (if ls.guards.startup_enter {
            seq![]
        } else {
            startup_part(ls.startup)
        }) + enter_part(ls.enter),
        reachable(activated(ls)),
        activated(ls).guards.startup_enter == (ls.guards.startup_enter || ls.startup > 0),
{
    let hs = ls.startup > 0;
    let he = ls.enter > 0;
    lemma_rules(hs, he);
    let se = StateSets::StartupEnter;
    let sef = StateSets::StartupEnterFlush;
    let en = StateSets::Enter;
    let ef = StateSets::EnterFlush;
    assert(set_tasks(ls, se) == block(Phase::Startup, ls.startup));
    assert(set_members(ls, se) =~= block(Phase::Startup, ls.startup));
    assert(set_members(ls, en) =~= block(Phase::Enter, ls.enter));
    if hs {
        assert(set_members(ls, sef) =~= seq![Step::Flush(sef)]);
    } else {
        assert(set_members(ls, sef) =~= seq![]);
    }
    if he {
        assert(set_members(ls, ef) =~= seq![Step::Flush(ef)]);
    } else {
        assert(set_members(ls, ef) =~= seq![]);
    }
    let startup = if ls.guards.startup_enter {
        seq![]
    } else {
        startup_part(ls.startup)
    };
    assert(set_output(ls, se) + set_output(ls, sef) =~= startup);
    assert(set_output(ls, en) + set_output(ls, ef) =~= enter_part(ls.enter));
    assert(activation_output(ls) =~= startup + enter_part(ls.enter));
}

proof fn lemma_event(ls: LifeState, e: Event)
    requires
        reachable(ls),
    ensures
        reachable(event_state(ls, e)),
        same_flow(event_state(ls, e), ls),
        ls.guards.startup_enter ==> event_state(ls, e).guards.startup_enter,
        e == Event::Activate && ls.startup > 0 ==> event_state(ls, e).guards.startup_enter,
{
    if e == Event::Activate && !ls.active {
        lemma_activation(ls);
    }
}

proof fn lemma_after(ls: LifeState, events: Seq<Event>)
    requires
        reachable(ls),
    ensures
        reachable(state_after(ls, events)),
        same_flow(state_after(ls, events), ls),
        ls.guards.startup_enter ==> state_after(ls, events).guards.startup_enter,
    decreases events.len(),
{
    if events.len() > 0 {
        lemma_event(ls, events[0]);
        lemma_after(event_state(ls, events[0]), events.drop_first());
    }
}

proof fn lemma_fresh_reachable(startup: usize, enter: usize, update: usize, exit: usize)
    ensures
        reachable(installed(startup, enter, update, exit)),
        !installed(startup, enter, update, exit).guards.startup_enter,
        !installed(startup, enter, update, exit).active,
{
}

proof fn lemma_contains_activate(events: Seq<Event>)
    requires
        events.len() > 0,
    ensures
        events.contains(Event::Activate) <==> (events[0] == Event::Activate
            || events.drop_first().contains(Event::Activate)),
{
    if events.contains(Event::Activate) && events[0] != Event::Activate {
        let i = choose|i: int| 0 <= i < events.len() && events[i] == Event::Activate;
        assert(events.drop_first()[i - 1] == Event::Activate);
    }
    if events.drop_first().contains(Event::Activate) {
        let i = choose|i: int|
            0 <= i < events.drop_first().len() && events.drop_first()[i] == Event::Activate;
        assert(events[i + 1] == Event::Activate);
    }
    if events[0] == Event::Activate {
        assert(events[0] == Event::Activate);
    }
}

proof fn lemma_startup_only(ls: LifeState, events: Seq<Event>)
    requires
        reachable(ls),
        ls.startup > 0,
        ls.enter == 0,
        ls.update == 0,
        ls.exit == 0,
    ensures
        trace(ls, events) == if !ls.guards.startup_enter && events.contains(Event::Activate) {
            startup_part(ls.startup)
        } else {
            seq![]
        },
    decreases events.len(),
{
    if events.len() == 0 {
    } else {
        let e = events[0];
        let next = event_state(ls, e);
        lemma_event(ls, e);
        lemma_startup_only(next, events.drop_first());
        lemma_contains_activate(events);
        if e == Event::Activate && !ls.active {
            lemma_activation(ls);
            assert(enter_part(ls.enter) =~= seq![]);
        }
        assert(block(Phase::Update, 0) =~= seq![]);
        assert(block(Phase::Exit, 0) =~= seq![]);
        assert(trace(ls, events) == event_output(ls, e) + trace(next, events.drop_first()));
        assert(event_output(ls, e) + seq![] =~= event_output(ls, e));
        assert(seq![] + trace(next, events.drop_first()) =~= trace(next, events.drop_first()));
    }
}

/// A flow with startup tasks alone runs them once for the life of its
/// installation, however often its state is activated: the startup tasks in
/// declared order and their barrier, on the first activation, and nothing
/// ever after.
pub proof fn law_startup_runs_once(startup: usize, events: Seq<Event>)
    requires
        startup > 0,
    ensures
        trace(installed(startup, 0, 0, 0), events) == if events.contains(Event::Activate) {
            block(Phase::Startup, startup).push(Step::Flush(StateSets::StartupEnterFlush))
        } else {
            seq![]
        },
{
    lemma_fresh_reachable(startup, 0, 0, 0);
    lemma_startup_only(installed(startup, 0, 0, 0), events);
}

/// A flow with startup and enter tasks runs, on its first activation, the
/// startup tasks, their barrier, the enter tasks and their barrier; on every
/// later activation, whatever happened in between, only the enter tasks and
/// their barrier, in the same order.
pub proof fn law_startup_then_enter(
    startup: usize,
    enter: usize,
    update: usize,
    exit: usize,
    events: Seq<Event>,
)
    requires
        startup > 0,
        enter > 0,
    ensures
        event_output(installed(startup, enter, update, exit), Event::Activate) == block(
            Phase::Startup,
            startup,
        ).push(Step::Flush(StateSets::StartupEnterFlush)) + block(Phase::Enter, enter).push(
            Step::Flush(StateSets::EnterFlush),
        ),
        ({
            let later = state_after(installed(startup, enter, update, exit), seq![Event::Activate] + events);
            !later.active ==> event_output(later, Event::Activate) == block(Phase::Enter, enter).push(
                Step::Flush(StateSets::EnterFlush),
            )
        }),
{
    let ls = installed(startup, enter, update, exit);
    lemma_fresh_reachable(startup, enter, update, exit);
    lemma_activation(ls);
    let all = seq![Event::Activate] + events;
    assert(all[0] == Event::Activate);
    assert(all.drop_first() =~= events);
    lemma_event(ls, Event::Activate);
    let first = event_state(ls, Event::Activate);
    lemma_after(first, events);
    let later = state_after(first, events);
    assert(later == state_after(ls, all));
    if !later.active {
        lemma_activation(later);
        assert(seq![] + enter_part(enter) =~= enter_part(enter));
    }
}

/// Whether `s` is a step of a startup task.
pub open spec fn is_startup_step(s: Step) -> bool {
    match s {
        Step::Run { phase, .. } => phase == Phase::Startup,
        _ => false,
    }
}

/// The steps of startup tasks in `s`, in order.
pub open spec fn startup_steps(s: Seq<Step>) -> Seq<Step> {
    s.filter(|x: Step| is_startup_step(x))
}

proof fn lemma_startup_steps_of_block(phase: Phase, n: usize)
    ensures
        startup_steps(block(phase, n)) == if phase == Phase::Startup {
            block(phase, n)
        } else {
            seq![]
        },
    decreases n,
{
    let pred = |x: Step| is_startup_step(x);
    if n == 0 {
        assert(block(phase, n) =~= seq![]);
        reveal_with_fuel(Seq::filter, 1);
    } else {
        let m = (n - 1) as usize;
        lemma_startup_steps_of_block(phase, m);
        let x = Step::Run { phase, index: m };
        assert(block(phase, n) =~= block(phase, m).push(x));
        block(phase, m).lemma_filter_push(x, pred);
        if phase != Phase::Startup {
            assert(startup_steps(block(phase, n)) =~= seq![]);
        }
    }
}

proof fn lemma_startup_steps_of_add(a: Seq<Step>, b: Seq<Step>)
    ensures
        startup_steps(a + b) == startup_steps(a) + startup_steps(b),
{
    Seq::filter_distributes_over_add(a, b, |x: Step| is_startup_step(x));
}

proof fn lemma_startup_steps_of_flush(s: StateSets)
    ensures
        startup_steps(seq![Step::Flush(s)]) == Seq::<Step>::empty(),
{
    let pred = |x: Step| is_startup_step(x);
    Seq::<Step>::empty().lemma_filter_push(Step::Flush(s), pred);
    assert(seq![Step::Flush(s)] =~= Seq::<Step>::empty().push(Step::Flush(s)));
    reveal_with_fuel(Seq::filter, 1);
}

proof fn lemma_startup_steps_of_event(ls: LifeState, e: Event)
    requires
        reachable(ls),
    ensures
        startup_steps(event_output(ls, e)) == if e == Event::Activate && !ls.active
            && !ls.guards.startup_enter {
            block(Phase::Startup, ls.startup)
        } else {
            seq![]
        },
{
    lemma_startup_steps_of_block(Phase::Startup, ls.startup);
    lemma_startup_steps_of_block(Phase::Enter, ls.enter);
    lemma_startup_steps_of_block(Phase::Update, ls.update);
    lemma_startup_steps_of_block(Phase::Exit, ls.exit);
    lemma_startup_steps_of_flush(StateSets::StartupEnterFlush);
    lemma_startup_steps_of_flush(StateSets::EnterFlush);
    lemma_startup_steps_of_block(Phase::Startup, 0);
    assert(block(Phase::Startup, 0) =~= seq![]);
    if e == Event::Activate && !ls.active {
        lemma_activation(ls);
        let sp = block(Phase::Startup, ls.startup);
        let ep = block(Phase::Enter, ls.enter);
        if ls.startup > 0 {
            lemma_startup_steps_of_add(sp, seq![Step::Flush(StateSets::StartupEnterFlush)]);
            assert(sp.push(Step::Flush(StateSets::StartupEnterFlush)) =~= sp + seq![
                Step::Flush(StateSets::StartupEnterFlush),
            ]);
            assert(startup_steps(sp) + Seq::<Step>::empty() =~= sp);
        }
        if ls.enter > 0 {
            lemma_startup_steps_of_add(ep, seq![Step::Flush(StateSets::EnterFlush)]);
            assert(ep.push(Step::Flush(StateSets::EnterFlush)) =~= ep + seq![
                Step::Flush(StateSets::EnterFlush),
            ]);
            assert(Seq::<Step>::empty() + Seq::<Step>::empty() =~= Seq::<Step>::empty());
        }
        let first = if ls.guards.startup_enter {
            seq![]
        } else {
            startup_part(ls.startup)
        };
        lemma_startup_steps_of_add(first, enter_part(ls.enter));
        assert(startup_steps(enter_part(ls.enter)) =~= seq![]);
        if ls.guards.startup_enter {
            assert(first =~= block(Phase::Startup, 0));
        }
        if ls.startup == 0 {
            assert(first =~= block(Phase::Startup, 0));
        }
        assert(startup_steps(first) + Seq::<Step>::empty() =~= startup_steps(first));
    } else if e == Event::Activate {
        assert(event_output(ls, e) =~= block(Phase::Startup, 0));
    } else if !ls.active {
        assert(event_output(ls, e) =~= block(Phase::Startup, 0));
    }
}

proof fn lemma_startup_once(ls: LifeState, events: Seq<Event>)
    requires
        reachable(ls),
        ls.startup > 0,
    ensures
        startup_steps(trace(ls, events)) == if !ls.guards.startup_enter && events.contains(
            Event::Activate,
        ) {
            block(Phase::Startup, ls.startup)
        } else {
            seq![]
        },
    decreases events.len(),
{
    if events.len() == 0 {
        lemma_startup_steps_of_block(Phase::Startup, 0);
        assert(block(Phase::Startup, 0) =~= seq![]);
    } else {
        let e = events[0];
        let next = event_state(ls, e);
        lemma_event(ls, e);
        lemma_startup_once(next, events.drop_first());
        lemma_contains_activate(events);
        lemma_startup_steps_of_event(ls, e);
        lemma_startup_steps_of_add(event_output(ls, e), trace(next, events.drop_first()));
        let rest = startup_steps(trace(next, events.drop_first()));
        assert(Seq::<Step>::empty() + rest =~= rest);
        assert(block(Phase::Startup, ls.startup) + Seq::<Step>::empty() =~= block(
            Phase::Startup,
            ls.startup,
        ));
    }
}

/// Whatever the other groups of a flow with startup tasks hold, over any
/// events its startup tasks run exactly once, in declared order, if the state
/// is ever activated, and never otherwise.
pub proof fn law_startup_tasks_run_once(
    startup: usize,
    enter: usize,
    update: usize,
    exit: usize,
    events: Seq<Event>,
)
    requires
        startup > 0,
    ensures
        startup_steps(trace(installed(startup, enter, update, exit), events)) == if events.contains(
            Event::Activate,
        ) {
            block(Phase::Startup, startup)
        } else {
            seq![]
        },
{
    lemma_fresh_reachable(startup, enter, update, exit);
    lemma_startup_once(installed(startup, enter, update, exit), events);
}

proof fn lemma_update_only(ls: LifeState, events: Seq<Event>)
    requires
        reachable(ls),
        ls.startup == 0,
        ls.enter == 0,
        ls.exit == 0,
    ensures
        trace(ls, events) == repeat(block(Phase::Update, ls.update), active_ticks(ls.active, events)),
    decreases events.len(),
{
    if events.len() > 0 {
        let e = events[0];
        let next = event_state(ls, e);
        lemma_event(ls, e);
        lemma_update_only(next, events.drop_first());
        if e == Event::Activate && !ls.active {
            lemma_activation(ls);
            assert(activation_output(ls) =~= seq![]);
        }
        assert(block(Phase::Exit, 0) =~= seq![]);
        let rest = trace(next, events.drop_first());
        assert(seq![] + rest =~= rest);
    }
}

/// A flow with update tasks alone runs them, in declared order, once on
/// every tick that passes while its state is active, and never otherwise.
pub proof fn law_update_per_active_tick(update: usize, events: Seq<Event>)
    ensures
        trace(installed(0, 0, update, 0), events) == repeat(
            block(Phase::Update, update),
            active_ticks(false, events),
        ),
{
    lemma_fresh_reachable(0, 0, update, 0);
    lemma_update_only(installed(0, 0, update, 0), events);
}

proof fn lemma_block_no_exit(phase: Phase, n: usize)
    requires
        phase != Phase::Exit,
    ensures
        no_exit_step(block(phase, n)),
{
}

/// Whatever the flow and the events so far: a deactivation of the active
/// state runs the exit tasks once, in declared order, and leaves the state
/// inactive; a deactivation of an inactive state runs nothing; an activation
/// or a tick never runs an exit task.
pub proof fn law_exit_once_per_deactivation(
    startup: usize,
    enter: usize,
    update: usize,
    exit: usize,
    events: Seq<Event>,
)
    ensures
        ({
            let ls = state_after(installed(startup, enter, update, exit), events);
            &&& event_output(ls, Event::Deactivate) == if ls.active {
                block(Phase::Exit, exit)
            } else {
                seq![]
            }
            &&& !event_state(ls, Event::Deactivate).active
            &&& no_exit_step(event_output(ls, Event::Activate))
            &&& no_exit_step(event_output(ls, Event::Tick))
        }),
{
    let ls0 = installed(startup, enter, update, exit);
    lemma_fresh_reachable(startup, enter, update, exit);
    lemma_after(ls0, events);
    let ls = state_after(ls0, events);
    lemma_block_no_exit(Phase::Update, update);
    if !ls.active {
        lemma_activation(ls);
        lemma_block_no_exit(Phase::Startup, startup);
        lemma_block_no_exit(Phase::Enter, enter);
        let s = if ls.guards.startup_enter {
            seq![]
        } else {
            startup_part(ls.startup)
        };
        let out = s + enter_part(ls.enter);
        assert forall|i: int| 0 <= i < out.len() implies !is_exit_step(#[trigger] out[i]) by {
            if i < s.len() {
                assert(out[i] == s[i]);
                if i < startup as int {
                    assert(s[i] == block(Phase::Startup, startup)[i]);
                }
            } else {
                assert(out[i] == enter_part(ls.enter)[i - s.len()]);
                if i - s.len() < enter as int {
                    assert(enter_part(ls.enter)[i - s.len()] == block(Phase::Enter, enter)[i
                        - s.len()]);
                }
            }
        }
    }
}

proof fn lemma_empty(ls: LifeState, events: Seq<Event>)
    requires
        reachable(ls),
        ls.startup == 0,
        ls.enter == 0,
        ls.update == 0,
        ls.exit == 0,
    ensures
        trace(ls, events) == Seq::<Step>::empty(),
    decreases events.len(),
{
    if events.len() > 0 {
        let e = events[0];
        lemma_event(ls, e);
        lemma_empty(event_state(ls, e), events.drop_first());
        if e == Event::Activate && !ls.active {
            lemma_activation(ls);
            assert(activation_output(ls) =~= seq![]);
        }
        assert(block(Phase::Update, 0) =~= seq![]);
        assert(block(Phase::Exit, 0) =~= seq![]);
        assert(trace(ls, events) =~= seq![]);
    }
}

/// A flow with no task in any phase is given no rule, and runs nothing,
/// whatever events its state goes through.
pub proof fn law_empty_flow_is_inert(events: Seq<Event>)
    ensures
        phase_rules(false, false).len() == 0,
        trace(installed(0, 0, 0, 0), events) == Seq::<Step>::empty(),
{
    lemma_fresh_reachable(0, 0, 0, 0);
    lemma_empty(installed(0, 0, 0, 0), events);
}

} // verus!
