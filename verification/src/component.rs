//! A component wraps one unit of behavior with lifecycle flags.
//!
//! A component dispatches to its behavior only while enabled.  `start` is
//! dispatched at most once per component: the first time the component is
//! both enabled and reached by a start traversal.  Disabling suppresses
//! dispatch without resetting the started flag, so a disabled-then-re-enabled
//! component resumes `update` and `draw` without running `start` again.

use vstd::prelude::*;

use crate::app_state::FrameState;
use crate::renderer::DrawCmd;

verus! {

/// A unit of behavior: optional callbacks dispatched while the owning
/// component is enabled.  Each callback is pinned to its specification
/// function, so traversal contracts can state exactly what a pass did.
pub trait ComponentLogic: Sized {
    /// What `start` turns this behavior into.
    spec fn spec_start(self, state: FrameState) -> Self;

    /// What `update` turns this behavior into.
    spec fn spec_update(self, state: FrameState) -> Self;

    /// The rendering commands `draw` issues.
    spec fn spec_draw(self) -> Seq<DrawCmd>;

    /// One-time setup, run before the first update this behavior sees.
    fn start(&mut self, state: &FrameState)
        requires
            state.wf(),
        ensures
            *final(self) == old(self).spec_start(*state),
    ;

    /// Per-frame behavior.
    fn update(&mut self, state: &FrameState)
        requires
            state.wf(),
        ensures
            *final(self) == old(self).spec_update(*state),
    ;

    /// Read-only rendering pass: the commands to issue, in order.
    fn draw(&self) -> (cmds: Vec<DrawCmd>)
        ensures
            cmds@ == self.spec_draw(),
    ;
}

/// A behavior with its lifecycle flags.
pub struct Component<L> {
    is_started: bool,
    is_enabled: bool,
    logic: L,
}

impl<L: ComponentLogic> Component<L> {
    pub closed spec fn spec_started(self) -> bool {
        self.is_started
    }

    pub closed spec fn spec_enabled(self) -> bool {
        self.is_enabled
    }

    pub closed spec fn spec_logic(self) -> L {
        self.logic
    }

    /// What a start dispatch turns the component into: no change while
    /// disabled or already started, else the behavior's start with the
    /// started flag set.
    pub closed spec fn spec_comp_start(self, state: FrameState) -> Component<L> {
        if !self.is_enabled {
            self
        } else if self.is_started {
            self
        } else {
            Component { is_started: true, is_enabled: self.is_enabled, logic: self.logic.spec_start(state) }
        }
    }

    /// What an update dispatch turns the component into: no change while
    /// disabled, else the behavior's update.
    pub closed spec fn spec_comp_update(self, state: FrameState) -> Component<L> {
        if !self.is_enabled {
            self
        } else {
            Component {
                is_started: self.is_started,
                is_enabled: self.is_enabled,
                logic: self.logic.spec_update(state),
            }
        }
    }

    /// The commands a draw dispatch issues: none while disabled.
    pub closed spec fn spec_comp_draw(self) -> Seq<DrawCmd> {
        if !self.is_enabled {
            Seq::empty()
        } else {
            self.logic.spec_draw()
        }
    }

    /// The component with its enabled flag set to `enabled` and nothing else
    /// changed.
    pub closed spec fn spec_comp_set_enabled(self, enabled: bool) -> Component<L> {
        Component { is_started: self.is_started, is_enabled: enabled, logic: self.logic }
    }

    /// The component `new` builds around `logic`.
    pub closed spec fn spec_new_component(logic: L) -> Component<L> {
        Component { is_started: false, is_enabled: true, logic }
    }

    /// A fresh, enabled, not yet started component around `logic`.
    pub(crate) fn new(logic: L) -> (r: Component<L>)
        ensures
            r == Component::spec_new_component(logic),
            !r.spec_started(),
            r.spec_enabled(),
            r.spec_logic() == logic,
    {
        Component { is_started: false, is_enabled: true, logic }
    }

    /// Dispatches the one-time start, gated by the enabled and started
    /// flags.
    pub(crate) fn start(&mut self, state: &FrameState)
        requires
            state.wf(),
        ensures
            *final(self) == old(self).spec_comp_start(*state),
    {
        if !self.is_enabled {
            return ;
        }
        if !self.is_started {
            self.logic.start(state);
            self.is_started = true;
        }
    }

    /// Dispatches the per-frame update, gated by the enabled flag.
    pub(crate) fn update(&mut self, state: &FrameState)
        requires
            state.wf(),
        ensures
            *final(self) == old(self).spec_comp_update(*state),
    {
        if !self.is_enabled {
            return ;
        }
        self.logic.update(state);
    }

    /// Collects the rendering commands of the read-only draw pass, gated by
    /// the enabled flag.
    pub(crate) fn draw(&self) -> (cmds: Vec<DrawCmd>)
        ensures
            cmds@ == self.spec_comp_draw(),
    {
        if !self.is_enabled {
            let cmds: Vec<DrawCmd> = Vec::new();
            return cmds;
        }
        self.logic.draw()
    }

    /// Whether the component currently dispatches to its behavior.
    pub fn is_enabled(&self) -> (r: bool)
        ensures
            r == self.spec_enabled(),
    {
        self.is_enabled
    }

    /// Whether the one-time start has already run.
    pub fn is_started(&self) -> (r: bool)
        ensures
            r == self.spec_started(),
    {
        self.is_started
    }

    /// Enables or disables dispatch; the started flag is untouched.
    pub fn set_enabled(&mut self, is_enabled: bool)
        ensures
            *final(self) == old(self).spec_comp_set_enabled(is_enabled),
    {
        self.is_enabled = is_enabled;
    }

    /// A read-only view of the wrapped behavior.
    pub fn get_logic(&self) -> (r: &L)
        ensures
            *r == self.spec_logic(),
    {
        &self.logic
    }
}

/// A start dispatch on an already started component changes nothing: start
/// never fires twice on one component instance.
pub proof fn lemma_comp_start_noop_when_started<L: ComponentLogic>(
    c: Component<L>,
    s: FrameState,
)
    requires
        c.spec_started(),
    ensures
        c.spec_comp_start(s) == c,
{
}

/// A disabled component is untouched by every dispatch: start and update
/// change nothing and draw issues no command.
pub proof fn lemma_comp_disabled_gating<L: ComponentLogic>(c: Component<L>, s: FrameState)
    requires
        !c.spec_enabled(),
    ensures
        c.spec_comp_start(s) == c,
        c.spec_comp_update(s) == c,
        c.spec_comp_draw() == Seq::<DrawCmd>::empty(),
{
}

/// The first start dispatch an enabled component sees runs the behavior's
/// start once and sets the started flag; the enabled flag is untouched.
pub proof fn lemma_comp_start_dispatches<L: ComponentLogic>(c: Component<L>, s: FrameState)
    requires
        c.spec_enabled(),
        !c.spec_started(),
    ensures
        c.spec_comp_start(s).spec_started(),
        c.spec_comp_start(s).spec_enabled() == c.spec_enabled(),
        c.spec_comp_start(s).spec_logic() == c.spec_logic().spec_start(s),
{
}

/// Toggling the enabled flag changes only that flag: the started flag and
/// the behavior survive, and no callback is dispatched.
pub proof fn lemma_comp_set_enabled_fields<L: ComponentLogic>(c: Component<L>, enabled: bool)
    ensures
        c.spec_comp_set_enabled(enabled).spec_enabled() == enabled,
        c.spec_comp_set_enabled(enabled).spec_started() == c.spec_started(),
        c.spec_comp_set_enabled(enabled).spec_logic() == c.spec_logic(),
{
}

/// An update dispatch on an enabled component runs the behavior's update
/// once and touches neither flag; in particular it never re-runs start, so a
/// re-enabled component resumes updating without starting again.
pub proof fn lemma_comp_update_fields<L: ComponentLogic>(c: Component<L>, s: FrameState)
    requires
        c.spec_enabled(),
    ensures
        c.spec_comp_update(s).spec_started() == c.spec_started(),
        c.spec_comp_update(s).spec_enabled() == c.spec_enabled(),
        c.spec_comp_update(s).spec_logic() == c.spec_logic().spec_update(s),
{
}

/// Start fires at most once: a second start pass after a start-and-update
/// frame leaves the component exactly as it was.
pub proof fn lemma_comp_start_once<L: ComponentLogic>(
    c: Component<L>,
    s1: FrameState,
    s2: FrameState,
)
    ensures
        c.spec_comp_start(s1).spec_comp_update(s1).spec_comp_start(s2)
            == c.spec_comp_start(s1).spec_comp_update(s1),
{
}

/// A component on which every start dispatch is a no-op (it is started, or
/// it is disabled) stays that way through any update dispatch: start can
/// never fire again once it has become a no-op.
pub proof fn lemma_comp_settled_preserved<L: ComponentLogic>(c: Component<L>, s: FrameState)
    requires
        forall|s2: FrameState| #[trigger] c.spec_comp_start(s2) == c,
    ensures
        forall|s2: FrameState| #[trigger] c.spec_comp_update(s).spec_comp_start(s2) == c
            .spec_comp_update(s),
{
    if c.spec_enabled() {
        assert(c.spec_comp_start(s) == c);
        assert(c.spec_started());
    }
}

/// Disabling and re-enabling a started component does not re-run start: the
/// started flag survives the toggles, so a later start pass is a no-op.
pub proof fn lemma_comp_reenable_no_restart<L: ComponentLogic>(
    c: Component<L>,
    s1: FrameState,
    s2: FrameState,
)
    requires
        c.spec_enabled(),
    ensures
        c.spec_comp_start(s1).spec_comp_set_enabled(false).spec_comp_set_enabled(
            true,
        ).spec_comp_start(s2) == c.spec_comp_start(s1).spec_comp_set_enabled(false)
            .spec_comp_set_enabled(true),
{
}

} // verus!
