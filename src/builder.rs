//! The staged assembler of a state's flow.
//!
//! Each stage is its own type and offers only the operations that are legal
//! there: a stage that has been left offers no way back, so startup tasks can
//! never follow enter tasks, nor enter tasks follow update or exit tasks.
//! Adding a task of a later phase moves to that phase's stage.
use vstd::prelude::*;
use core::marker::PhantomData;
use crate::graph::{phase_graph, phase_rules};
use crate::phase::Rule;

verus! {

/// The four task groups of a flow, in declared order.
pub struct TaskGroups<T> {
    pub startup: Vec<T>,
    pub enter: Vec<T>,
    pub update: Vec<T>,
    pub exit: Vec<T>,
}

/// What a flow's task groups hold.
pub ghost struct Groups<T> {
    pub startup: Seq<T>,
    pub enter: Seq<T>,
    pub update: Seq<T>,
    pub exit: Seq<T>,
}

impl<T> View for TaskGroups<T> {
    type V = Groups<T>;

    open spec fn view(&self) -> Groups<T> {
        Groups {
            startup: self.startup@,
            enter: self.enter@,
            update: self.update@,
            exit: self.exit@,
        }
    }
}

impl<T> TaskGroups<T> {
    /// Four empty groups.
    pub fn new() -> (r: Self)
        ensures
            r@ == (Groups::<T> { startup: seq![], enter: seq![], update: seq![], exit: seq![] }),
    {
        let r = TaskGroups { startup: Vec::new(), enter: Vec::new(), update: Vec::new(), exit: Vec::new() };
        assert(r@.startup =~= seq![]);
        assert(r@.enter =~= seq![]);
        assert(r@.update =~= seq![]);
        assert(r@.exit =~= seq![]);
        r
    }
}

/// Creates the assembler of a flow for `state_variant`.
pub fn on_variant<Marker, State, T>(state_variant: State) -> (r: Builder<Marker, State, T>)
    ensures
        r.state_variant == state_variant,
        r.groups@ == (Groups::<T> { startup: seq![], enter: seq![], update: seq![], exit: seq![] }),
{
    Builder::empty(state_variant)
}

/// The assembler at its startup stage: every phase may still be added to.
pub struct Builder<Marker, State, T> {
    pub state_variant: State,
    pub groups: TaskGroups<T>,
    pub _marker: PhantomData<Marker>,
}

/// The assembler at its enter stage: startup tasks can no longer be added.
pub struct EnterBuilder<Marker, State, T> {
    pub state_variant: State,
    pub groups: TaskGroups<T>,
    pub _marker: PhantomData<Marker>,
}

/// The assembler at its update stage: only update and exit tasks can be added.
pub struct UpdateBuilder<Marker, State, T> {
    pub state_variant: State,
    pub groups: TaskGroups<T>,
    pub _marker: PhantomData<Marker>,
}

/// The assembler at its exit stage: only exit tasks can be added.
pub struct ExitBuilder<Marker, State, T> {
    pub state_variant: State,
    pub groups: TaskGroups<T>,
    pub _marker: PhantomData<Marker>,
}

/// A finished flow: the state value and its four task groups, fixed.
pub struct Flow<Marker, State, T> {
    pub state_variant: State,
    pub groups: TaskGroups<T>,
    pub _marker: PhantomData<Marker>,
}

/// What a host scheduler is handed for one flow: the rules of the activation
/// schedule, then each group's tasks in declared order.
pub struct Installation<State, T> {
    pub state_variant: State,
    pub rules: Vec<Rule>,
    pub groups: TaskGroups<T>,
}

/// The groups with `t` appended to the startup group.
pub open spec fn add_startup<T>(g: Groups<T>, t: T) -> Groups<T> {
    Groups { startup: g.startup.push(t), ..g }
}

/// The groups with `t` appended to the enter group.
pub open spec fn add_enter<T>(g: Groups<T>, t: T) -> Groups<T> {
    Groups { enter: g.enter.push(t), ..g }
}

/// The groups with `t` appended to the update group.
pub open spec fn add_update<T>(g: Groups<T>, t: T) -> Groups<T> {
    Groups { update: g.update.push(t), ..g }
}

/// The groups with `t` appended to the exit group.
pub open spec fn add_exit<T>(g: Groups<T>, t: T) -> Groups<T> {
    Groups { exit: g.exit.push(t), ..g }
}

/// No group holds a task.
pub open spec fn groups_empty<T>(g: Groups<T>) -> bool {
    g.startup.len() == 0 && g.enter.len() == 0 && g.update.len() == 0 && g.exit.len() == 0
}

impl<T> TaskGroups<T> {
    fn push_startup(&mut self, t: T)
        ensures
            final(self)@ == add_startup(old(self)@, t),
    {
        self.startup.push(t);
    }

    fn push_enter(&mut self, t: T)
        ensures
            final(self)@ == add_enter(old(self)@, t),
    {
        self.enter.push(t);
    }

    fn push_update(&mut self, t: T)
        ensures
            final(self)@ == add_update(old(self)@, t),
    {
        self.update.push(t);
    }

    fn push_exit(&mut self, t: T)
        ensures
            final(self)@ == add_exit(old(self)@, t),
    {
        self.exit.push(t);
    }
}

impl<Marker, State, T> Builder<Marker, State, T> {
    /// An assembler for `state_variant` with four empty groups.
    pub fn empty(state_variant: State) -> (r: Self)
        ensures
            r.state_variant == state_variant,
            r.groups@ == (Groups::<T> { startup: seq![], enter: seq![], update: seq![], exit: seq![] }),
    {
        Builder { state_variant, groups: TaskGroups::new(), _marker: PhantomData }
    }

    /// Adds a task that runs on the first activation only, before the enter
    /// tasks, followed once by a barrier.
    pub fn with_startup(self, startup: T) -> (r: Self)
        ensures
            r.state_variant == self.state_variant,
            r.groups@ == add_startup(self.groups@, startup),
    {
        let mut groups = self.groups;
        groups.push_startup(startup);
        Builder { state_variant: self.state_variant, groups, _marker: PhantomData }
    }

    /// Adds a task that runs on every activation, and closes the startup stage.
    pub fn with_enter(self, enter: T) -> (r: EnterBuilder<Marker, State, T>)
        ensures
            r.state_variant == self.state_variant,
            r.groups@ == add_enter(self.groups@, enter),
    {
        let mut groups = self.groups;
        groups.push_enter(enter);
        EnterBuilder { state_variant: self.state_variant, groups, _marker: PhantomData }
    }

    /// Adds a task that runs on every tick while active, and closes the
    /// startup and enter stages.
    pub fn with_update(self, update: T) -> (r: UpdateBuilder<Marker, State, T>)
        ensures
            r.state_variant == self.state_variant,
            r.groups@ == add_update(self.groups@, update),
    {
        let mut groups = self.groups;
        groups.push_update(update);
        UpdateBuilder { state_variant: self.state_variant, groups, _marker: PhantomData }
    }

    /// Adds a task that runs on every deactivation, and closes every other
    /// stage.
    pub fn with_exit(self, exit: T) -> (r: ExitBuilder<Marker, State, T>)
        ensures
            r.state_variant == self.state_variant,
            r.groups@ == add_exit(self.groups@, exit),
    {
        let mut groups = self.groups;
        groups.push_exit(exit);
        ExitBuilder { state_variant: self.state_variant, groups, _marker: PhantomData }
    }

    /// Declares that no more startup tasks follow.
    pub fn no_startup(self) -> (r: EnterBuilder<Marker, State, T>)
        ensures
            r.state_variant == self.state_variant,
            r.groups@ == self.groups@,
    {
        EnterBuilder { state_variant: self.state_variant, groups: self.groups, _marker: PhantomData }
    }

    /// Finishes the flow.
    pub fn build(self) -> (r: Flow<Marker, State, T>)
        ensures
            r.state_variant == self.state_variant,
            r.groups@ == self.groups@,
    {
        Flow { state_variant: self.state_variant, groups: self.groups, _marker: PhantomData }
    }
}

impl<Marker, State, T> EnterBuilder<Marker, State, T> {
    /// Adds a task that runs on every activation.
    pub fn with_enter(self, enter: T) -> (r: Self)
        ensures
            r.state_variant == self.state_variant,
            r.groups@ == add_enter(self.groups@, enter),
    {
        let mut groups = self.groups;
        groups.push_enter(enter);
        EnterBuilder { state_variant: self.state_variant, groups, _marker: PhantomData }
    }

    /// Adds a task that runs on every tick while active, and closes the enter
    /// stage.
    pub fn with_update(self, update: T) -> (r: UpdateBuilder<Marker, State, T>)
        ensures
            r.state_variant == self.state_variant,
            r.groups@ == add_update(self.groups@, update),
    {
        let mut groups = self.groups;
        groups.push_update(update);
        UpdateBuilder { state_variant: self.state_variant, groups, _marker: PhantomData }
    }

    /// Adds a task that runs on every deactivation, and closes the enter and
    /// update stages.
    pub fn with_exit(self, exit: T) -> (r: ExitBuilder<Marker, State, T>)
        ensures
            r.state_variant == self.state_variant,
            r.groups@ == add_exit(self.groups@, exit),
    {
        let mut groups = self.groups;
        groups.push_exit(exit);
        ExitBuilder { state_variant: self.state_variant, groups, _marker: PhantomData }
    }

    /// Declares that no more enter tasks follow.
    pub fn no_enter(self) -> (r: UpdateBuilder<Marker, State, T>)
        ensures
            r.state_variant == self.state_variant,
            r.groups@ == self.groups@,
    {
        UpdateBuilder { state_variant: self.state_variant, groups: self.groups, _marker: PhantomData }
    }

    /// Finishes the flow.
    pub fn build(self) -> (r: Flow<Marker, State, T>)
        ensures
            r.state_variant == self.state_variant,
            r.groups@ == self.groups@,
    {
        Flow { state_variant: self.state_variant, groups: self.groups, _marker: PhantomData }
    }
}

impl<Marker, State, T> UpdateBuilder<Marker, State, T> {
    /// Adds a task that runs on every tick while active.
    pub fn with_update(self, update: T) -> (r: Self)
        ensures
            r.state_variant == self.state_variant,
            r.groups@ == add_update(self.groups@, update),
    {
        let mut groups = self.groups;
        groups.push_update(update);
        UpdateBuilder { state_variant: self.state_variant, groups, _marker: PhantomData }
    }

    /// Adds a task that runs on every deactivation, and closes the update
    /// stage.
    pub fn with_exit(self, exit: T) -> (r: ExitBuilder<Marker, State, T>)
        ensures
            r.state_variant == self.state_variant,
            r.groups@ == add_exit(self.groups@, exit),
    {
        let mut groups = self.groups;
        groups.push_exit(exit);
        ExitBuilder { state_variant: self.state_variant, groups, _marker: PhantomData }
    }

    /// Declares that no more update tasks follow.
    pub fn no_update(self) -> (r: ExitBuilder<Marker, State, T>)
        ensures
            r.state_variant == self.state_variant,
            r.groups@ == self.groups@,
    {
        ExitBuilder { state_variant: self.state_variant, groups: self.groups, _marker: PhantomData }
    }

    /// Finishes the flow.
    pub fn build(self) -> (r: Flow<Marker, State, T>)
        ensures
            r.state_variant == self.state_variant,
            r.groups@ == self.groups@,
    {
        Flow { state_variant: self.state_variant, groups: self.groups, _marker: PhantomData }
    }
}

impl<Marker, State, T> ExitBuilder<Marker, State, T> {
    /// Adds a task that runs on every deactivation.
    pub fn with_exit(self, exit: T) -> (r: Self)
        ensures
            r.state_variant == self.state_variant,
            r.groups@ == add_exit(self.groups@, exit),
    {
        let mut groups = self.groups;
        groups.push_exit(exit);
        ExitBuilder { state_variant: self.state_variant, groups, _marker: PhantomData }
    }

    /// Finishes the flow.
    pub fn build(self) -> (r: Flow<Marker, State, T>)
        ensures
            r.state_variant == self.state_variant,
            r.groups@ == self.groups@,
    {
        Flow { state_variant: self.state_variant, groups: self.groups, _marker: PhantomData }
    }
}

impl<Marker, State, T> Flow<Marker, State, T> {
    /// Hands the flow over for installation: the rules of its activation
    /// schedule, derived from which of the startup and enter groups hold
    /// tasks, and its groups unchanged. A flow with no tasks at all yields no
    /// rule and no task.
    pub fn install(self) -> (r: Installation<State, T>)
        ensures
            r.state_variant == self.state_variant,
            r.groups@ == self.groups@,
            r.rules@ == phase_rules(self.groups@.startup.len() > 0, self.groups@.enter.len() > 0),
            groups_empty(self.groups@) ==> r.rules@.len() == 0,
    {
        let has_startup = self.groups.startup.len() > 0;
        let has_enter = self.groups.enter.len() > 0;
        let rules = phase_graph(has_startup, has_enter);
        Installation { state_variant: self.state_variant, rules, groups: self.groups }
    }
}

} // verus!
