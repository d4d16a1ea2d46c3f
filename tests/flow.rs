use state_flow::builder::{on_variant, Builder, Flow, Installation, TaskGroups};
use state_flow::graph::phase_graph;
use state_flow::lifecycle::{Event, Lifecycle};
use state_flow::phase::{Phase, Rule, StateSets, Step};

struct Menu;
struct Game;

#[derive(Clone, Copy, Debug, PartialEq, Eq)]
enum AppState {
    A,
    B,
}

fn run(phase: Phase, index: usize) -> Step {
    Step::Run { phase, index }
}

fn label(groups: &TaskGroups<&'static str>, step: &Step) -> &'static str {
    match step {
        Step::Run { phase, index } => match phase {
            Phase::Startup => groups.startup[*index],
            Phase::Enter => groups.enter[*index],
            Phase::Update => groups.update[*index],
            Phase::Exit => groups.exit[*index],
        },
        Step::Flush(_) => "flush",
    }
}

fn labels(groups: &TaskGroups<&'static str>, steps: &[Step]) -> Vec<&'static str> {
    steps
        .iter()
        .map(|s| label(groups, s))
        .filter(|l| *l != "flush" && *l != "noop")
        .collect()
}

#[test]
fn builder_keeps_declared_order() {
    let flow: Flow<Game, AppState, u32> = on_variant::<Game, AppState, u32>(AppState::B)
        .with_startup(1)
        .with_startup(2)
        .with_enter(3)
        .with_enter(4)
        .with_update(5)
        .with_update(6)
        .with_exit(7)
        .with_exit(8)
        .build();
    assert_eq!(flow.state_variant, AppState::B);
    assert_eq!(flow.groups.startup, vec![1, 2]);
    assert_eq!(flow.groups.enter, vec![3, 4]);
    assert_eq!(flow.groups.update, vec![5, 6]);
    assert_eq!(flow.groups.exit, vec![7, 8]);
}

#[test]
fn builder_skips_stages() {
    let flow = Builder::<Menu, AppState, u32>::empty(AppState::A)
        .with_update(1)
        .with_exit(2)
        .build();
    assert!(flow.groups.startup.is_empty());
    assert!(flow.groups.enter.is_empty());
    assert_eq!(flow.groups.update, vec![1]);
    assert_eq!(flow.groups.exit, vec![2]);

    let flow = Builder::<Menu, AppState, u32>::empty(AppState::A)
        .no_startup()
        .with_enter(1)
        .no_enter()
        .no_update()
        .with_exit(9)
        .build();
    assert_eq!(flow.groups.enter, vec![1]);
    assert_eq!(flow.groups.exit, vec![9]);
    assert!(flow.groups.update.is_empty());
}

#[test]
fn graph_neither_startup_nor_enter() {
    assert!(phase_graph(false, false).is_empty());
}

#[test]
fn graph_startup_only() {
    assert_eq!(
        phase_graph(true, false),
        vec![
            Rule::RunOnce(StateSets::StartupEnter),
            Rule::RunOnce(StateSets::StartupEnterFlush),
            Rule::Order(StateSets::StartupEnter, StateSets::StartupEnterFlush),
            Rule::Flush(StateSets::StartupEnterFlush),
        ]
    );
}

#[test]
fn graph_enter_only() {
    assert_eq!(
        phase_graph(false, true),
        vec![
            Rule::Order(StateSets::Enter, StateSets::EnterFlush),
            Rule::Flush(StateSets::EnterFlush),
        ]
    );
}

#[test]
fn graph_startup_and_enter() {
    assert_eq!(
        phase_graph(true, true),
        vec![
            Rule::RunOnce(StateSets::StartupEnter),
            Rule::RunOnce(StateSets::StartupEnterFlush),
            Rule::Order(StateSets::StartupEnter, StateSets::StartupEnterFlush),
            Rule::Order(StateSets::StartupEnterFlush, StateSets::Enter),
            Rule::Order(StateSets::Enter, StateSets::EnterFlush),
            Rule::Flush(StateSets::StartupEnterFlush),
            Rule::Flush(StateSets::EnterFlush),
        ]
    );
}

#[test]
fn install_derives_rules_from_groups() {
    let inst: Installation<AppState, u32> = on_variant::<Game, AppState, u32>(AppState::B)
        .with_update(1)
        .with_exit(2)
        .build()
        .install();
    assert!(inst.rules.is_empty());
    assert_eq!(inst.groups.update, vec![1]);

    let inst = on_variant::<Game, AppState, u32>(AppState::B).with_enter(1).build().install();
    assert_eq!(inst.rules, phase_graph(false, true));
}

#[test]
fn empty_flow_installs_nothing_and_runs_nothing() {
    let inst = on_variant::<Game, AppState, u32>(AppState::A).build().install();
    assert!(inst.rules.is_empty());
    assert!(inst.groups.startup.is_empty() && inst.groups.enter.is_empty());
    assert!(inst.groups.update.is_empty() && inst.groups.exit.is_empty());
    let mut lc = Lifecycle::new(&inst);
    for e in [Event::Activate, Event::Tick, Event::Deactivate, Event::Activate, Event::Tick] {
        assert!(lc.handle(e).is_empty());
    }
}

#[test]
fn startup_only_runs_once_across_activations() {
    let inst = on_variant::<Game, AppState, u32>(AppState::B)
        .with_startup(10)
        .with_startup(11)
        .build()
        .install();
    let mut lc = Lifecycle::new(&inst);
    assert_eq!(
        lc.activate(),
        vec![
            run(Phase::Startup, 0),
            run(Phase::Startup, 1),
            Step::Flush(StateSets::StartupEnterFlush)
        ]
    );
    for _ in 0..3 {
        assert!(lc.deactivate().is_empty());
        assert!(lc.activate().is_empty());
    }
}

#[test]
fn startup_then_enter_then_enter_only() {
    let inst = on_variant::<Game, AppState, u32>(AppState::B)
        .with_startup(1)
        .with_enter(2)
        .with_enter(3)
        .build()
        .install();
    let mut lc = Lifecycle::new(&inst);
    assert_eq!(
        lc.activate(),
        vec![
            run(Phase::Startup, 0),
            Step::Flush(StateSets::StartupEnterFlush),
            run(Phase::Enter, 0),
            run(Phase::Enter, 1),
            Step::Flush(StateSets::EnterFlush)
        ]
    );
    for _ in 0..2 {
        lc.deactivate();
        assert_eq!(
            lc.activate(),
            vec![run(Phase::Enter, 0), run(Phase::Enter, 1), Step::Flush(StateSets::EnterFlush)]
        );
    }
}

#[test]
fn two_installations_keep_their_own_guard() {
    let a = on_variant::<Game, AppState, u32>(AppState::B).with_startup(1).build().install();
    let b = on_variant::<Game, AppState, u32>(AppState::B).with_startup(1).build().install();
    let mut la = Lifecycle::new(&a);
    let mut lb = Lifecycle::new(&b);
    assert_eq!(la.activate().len(), 2);
    assert_eq!(lb.activate().len(), 2);
}

#[test]
fn update_runs_per_tick_while_active() {
    let inst = on_variant::<Menu, AppState, u32>(AppState::A)
        .with_update(1)
        .with_update(2)
        .build()
        .install();
    let mut lc = Lifecycle::new(&inst);
    assert!(lc.tick().is_empty());
    assert!(lc.activate().is_empty());
    assert!(lc.is_active());
    for _ in 0..3 {
        assert_eq!(lc.tick(), vec![run(Phase::Update, 0), run(Phase::Update, 1)]);
    }
    assert!(lc.deactivate().is_empty());
    assert!(!lc.is_active());
    assert!(lc.tick().is_empty());
}

#[test]
fn exit_runs_once_per_deactivation() {
    let inst = on_variant::<Menu, AppState, u32>(AppState::A)
        .with_enter(1)
        .with_update(2)
        .with_exit(3)
        .with_exit(4)
        .build()
        .install();
    let mut lc = Lifecycle::new(&inst);
    assert!(lc.deactivate().is_empty());
    let on = lc.activate();
    assert!(on.iter().all(|s| !matches!(s, Step::Run { phase: Phase::Exit, .. })));
    assert_eq!(lc.tick(), vec![run(Phase::Update, 0)]);
    assert_eq!(lc.deactivate(), vec![run(Phase::Exit, 0), run(Phase::Exit, 1)]);
    assert!(lc.deactivate().is_empty());
    assert!(lc.activate().len() > 0);
    assert_eq!(lc.deactivate(), vec![run(Phase::Exit, 0), run(Phase::Exit, 1)]);
}

#[test]
fn activating_an_active_state_runs_nothing() {
    let inst = on_variant::<Menu, AppState, u32>(AppState::A).with_enter(1).build().install();
    let mut lc = Lifecycle::new(&inst);
    assert_eq!(lc.activate().len(), 2);
    assert!(lc.activate().is_empty());
}

#[test]
fn two_state_scenario() {
    let a = on_variant::<Menu, AppState, &'static str>(AppState::A)
        .with_enter("A-enter")
        .with_update("noop")
        .with_exit("A-exit")
        .build()
        .install();
    let b = on_variant::<Game, AppState, &'static str>(AppState::B)
        .with_startup("B-start")
        .with_enter("B-enter")
        .with_update("noop")
        .build()
        .install();
    let mut la = Lifecycle::new(&a);
    let mut lb = Lifecycle::new(&b);
    let mut printed: Vec<&'static str> = Vec::new();

    // A is the default state.
    printed.extend(labels(&a.groups, &la.activate()));
    printed.extend(labels(&a.groups, &la.tick()));
    let mut current = AppState::A;
    for next in [AppState::B, AppState::A, AppState::B] {
        let (leaving, entering) = match (current, next) {
            (AppState::A, AppState::B) => (labels(&a.groups, &la.deactivate()), labels(&b.groups, &lb.activate())),
            _ => (labels(&b.groups, &lb.deactivate()), labels(&a.groups, &la.activate())),
        };
        printed.extend(leaving);
        printed.extend(entering);
        current = next;
    }
    assert_eq!(
        printed,
        vec!["A-enter", "A-exit", "B-start", "B-enter", "A-enter", "A-exit", "B-enter"]
    );
    let b_and_startup: Vec<&'static str> =
        printed.iter().copied().filter(|l| l.starts_with("B-")).collect();
    assert_eq!(b_and_startup, vec!["B-start", "B-enter", "B-enter"]);
}

#[test]
fn startup_runs_once_beside_other_phases() {
    let inst = on_variant::<Game, AppState, u32>(AppState::B)
        .with_startup(1)
        .with_startup(2)
        .with_enter(3)
        .with_update(4)
        .with_exit(5)
        .build()
        .install();
    let mut lc = Lifecycle::new(&inst);
    let events = [
        Event::Tick,
        Event::Activate,
        Event::Tick,
        Event::Deactivate,
        Event::Activate,
        Event::Activate,
        Event::Tick,
        Event::Deactivate,
        Event::Activate,
    ];
    let mut startups: Vec<Step> = Vec::new();
    for e in events {
        startups.extend(
            lc.handle(e)
                .into_iter()
                .filter(|s| matches!(s, Step::Run { phase: Phase::Startup, .. })),
        );
    }
    assert_eq!(startups, vec![run(Phase::Startup, 0), run(Phase::Startup, 1)]);
}
