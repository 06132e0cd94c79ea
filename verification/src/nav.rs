use vstd::prelude::*;

verus! {

/// The two screens of the menu hierarchy.
#[derive(Clone, Copy, Debug, PartialEq, Eq, Structural)]
pub enum Screen {
    /// The tunnel list, with the cursor over a tunnel index.
    Overview,
    /// The three-field view of one tunnel, with the cursor over a field
    /// index: 0 = domain (read-only), 1 = name, 2 = port.
    Detail,
}

/// One input event, as the terminal layer translates key presses:
/// Enter/ArrowRight activate, Escape/ArrowLeft go back.
#[derive(Clone, Copy, Debug, PartialEq, Eq, Structural)]
pub enum NavEvent {
    Activate,
    Back,
    Up,
    Down,
}

/// The editable field the ephemeral edit sub-mode is entered for.
#[derive(Clone, Copy, Debug, PartialEq, Eq, Structural)]
pub enum EditField {
    Name,
    Port,
}

/// What the caller must do after a transition: nothing, or enter the
/// edit sub-mode for one field of the selected tunnel.
#[derive(Clone, Copy, Debug, PartialEq, Eq, Structural)]
pub enum NavAction {
    Stay,
    Edit(EditField),
}

/// How many selections are on the stack at each depth of the hierarchy.
pub open spec fn depth_of(s: Screen) -> nat {
    match s {
        Screen::Overview => 0,
        Screen::Detail => 1,
    }
}

/// The abstract navigation state: current screen, cursor position, the
/// selections pushed on the way down, and the cursor's current bound.
pub ghost struct NavView {
    pub screen: Screen,
    pub selected: usize,
    pub stack: Seq<usize>,
    pub max: usize,
}

impl NavView {
    /// The cursor never passes its bound, the stack depth always equals
    /// the navigation depth, and on the Detail screen the bound is the
    /// fixed field count.
    pub open spec fn wf(self) -> bool {
        &&& self.selected <= self.max
        &&& self.stack.len() == depth_of(self.screen)
        &&& self.screen is Detail ==> self.max == 2
    }
}

/// The transition table.  Activate on Overview descends: the cursor is
/// pushed and reset for the three Detail fields.  Activate on Detail
/// asks for the edit sub-mode on the name or port field and is a no-op
/// on the read-only domain field.  Back on Detail ascends and restores
/// the pushed selection (clamped to the current tunnel count, which may
/// have shrunk since the descent); Back on Overview is a no-op.  Up and
/// Down move the cursor within its bounds and are no-ops at the ends.
pub open spec fn spec_step(v: NavView, e: NavEvent, count: usize) -> (NavView, NavAction)
    recommends
        count >= 1,
{
    match e {
        NavEvent::Activate => match v.screen {
            Screen::Overview => (
                (NavView {
                    screen: Screen::Detail,
                    selected: 0,
                    stack: v.stack.push(v.selected),
                    max: 2,
                }),
                NavAction::Stay,
            ),
            Screen::Detail => (
                v,
                if v.selected == 1 {
                    NavAction::Edit(EditField::Name)
                } else if v.selected == 2 {
                    NavAction::Edit(EditField::Port)
                } else {
                    NavAction::Stay
                },
            ),
        },
        NavEvent::Back => match v.screen {
            Screen::Detail => {
                let cap = (count - 1) as usize;
                let restored = v.stack.last();
                (
                    (NavView {
                        screen: Screen::Overview,
                        selected: if restored <= cap {
                            restored
                        } else {
                            cap
                        },
                        stack: v.stack.drop_last(),
                        max: cap,
                    }),
                    NavAction::Stay,
                )
            },
            Screen::Overview => (v, NavAction::Stay),
        },
        NavEvent::Up => (
            (NavView {
                selected: if v.selected > 0 {
                    (v.selected - 1) as usize
                } else {
                    v.selected
                },
                ..v
            }),
            NavAction::Stay,
        ),
        NavEvent::Down => (
            (NavView {
                selected: if v.selected < v.max {
                    (v.selected + 1) as usize
                } else {
                    v.selected
                },
                ..v
            }),
            NavAction::Stay,
        ),
    }
}

/// The cursor bound each render pass recomputes: the tunnel count minus
/// one on Overview, the fixed field count on Detail.  The cursor is
/// clamped to the new bound, so it stays in range even when the tunnel
/// list shrank after a mutation-triggered refresh.
pub open spec fn spec_render_bounds(v: NavView, count: usize) -> NavView
    recommends
        count >= 1,
{
    let m = match v.screen {
        Screen::Overview => (count - 1) as usize,
        Screen::Detail => 2usize,
    };
    NavView {
        selected: if v.selected <= m {
            v.selected
        } else {
            m
        },
        max: m,
        ..v
    }
}

/// The terminal menu's state machine.  It owns no data and does no I/O:
/// each render pass hands it the current tunnel count, and each input
/// event is translated into a state change plus what the caller must do
/// next.
pub struct NavigationState {
    screen: Screen,
    selected_index: usize,
    selection_stack: Vec<usize>,
    max_index: usize,
}

impl View for NavigationState {
    type V = NavView;

    closed spec fn view(&self) -> NavView {
        NavView {
            screen: self.screen,
            selected: self.selected_index,
            stack: self.selection_stack@,
            max: self.max_index,
        }
    }
}

impl NavigationState {
    /// The state at process start: Overview, cursor at the top, empty
    /// stack.
    pub fn new() -> (s: NavigationState)
        ensures
            s@.wf(),
            s@.screen == Screen::Overview,
            s@.selected == 0,
            s@.stack == Seq::<usize>::empty(),
            s@.max == 0,
    {
        NavigationState {
            screen: Screen::Overview,
            selected_index: 0,
            selection_stack: Vec::new(),
            max_index: 0,
        }
    }

    /// The current screen.
    pub fn screen(&self) -> (r: Screen)
        ensures
            r == self@.screen,
    {
        self.screen
    }

    /// The cursor position, always within `0 ..= max`.
    pub fn selected_index(&self) -> (r: usize)
        ensures
            r == self@.selected,
    {
        self.selected_index
    }

    /// The tunnel index that was selected when Overview was left; only
    /// meaningful on the Detail screen.
    pub fn descended_from(&self) -> (r: Option<usize>)
        ensures
            match r {
                Some(i) => self@.stack.len() > 0 && i == self@.stack.last(),
                None => self@.stack.len() == 0,
            },
    {
        if self.selection_stack.len() > 0 {
            Some(self.selection_stack[self.selection_stack.len() - 1])
        } else {
            None
        }
    }

    /// Recomputes the cursor bound for this render pass from the
    /// current screen's cardinality.
    pub fn set_max_for_render(&mut self, tunnel_count: usize)
        requires
            old(self)@.wf(),
            tunnel_count >= 1,
        ensures
            final(self)@.wf(),
            final(self)@ == spec_render_bounds(old(self)@, tunnel_count),
    {
        let m = match self.screen {
            Screen::Overview => tunnel_count - 1,
            Screen::Detail => 2,
        };
        if self.selected_index > m {
            self.selected_index = m;
        }
        self.max_index = m;
    }

    /// Consumes one input event and performs the transition the table
    /// (`spec_step`) prescribes.  Down at the bound and Up at zero are
    /// no-ops, stated separately so the bound discipline is explicit.
    pub fn step(&mut self, event: NavEvent, tunnel_count: usize) -> (r: NavAction)
        requires
            old(self)@.wf(),
            tunnel_count >= 1,
        ensures
            final(self)@.wf(),
            (final(self)@, r) == spec_step(old(self)@, event, tunnel_count),
            event == NavEvent::Down && old(self)@.selected == old(self)@.max ==> final(self)@
                == old(self)@,
            event == NavEvent::Up && old(self)@.selected == 0 ==> final(self)@ == old(self)@,
    {
        match event {
            NavEvent::Activate => match self.screen {
                Screen::Overview => {
                    self.selection_stack.push(self.selected_index);
                    self.screen = Screen::Detail;
                    self.selected_index = 0;
                    self.max_index = 2;
                    NavAction::Stay
                },
                Screen::Detail => {
                    if self.selected_index == 1 {
                        NavAction::Edit(EditField::Name)
                    } else if self.selected_index == 2 {
                        NavAction::Edit(EditField::Port)
                    } else {
                        NavAction::Stay
                    }
                },
            },
            NavEvent::Back => match self.screen {
                Screen::Detail => {
                    let cap = tunnel_count - 1;
                    let restored = match self.selection_stack.pop() {
                        Some(x) => x,
                        None => 0,
                    };
                    self.selected_index = if restored <= cap {
                        restored
                    } else {
                        cap
                    };
                    self.screen = Screen::Overview;
                    self.max_index = cap;
                    NavAction::Stay
                },
                Screen::Overview => NavAction::Stay,
            },
            NavEvent::Up => {
                if self.selected_index > 0 {
                    self.selected_index = self.selected_index - 1;
                }
                NavAction::Stay
            },
            NavEvent::Down => {
                if self.selected_index < self.max_index {
                    self.selected_index = self.selected_index + 1;
                }
                NavAction::Stay
            },
        }
    }
}

/// Every transition keeps the cursor within `0 ..= max` and the stack
/// depth equal to the navigation depth: `new` establishes `wf`, and
/// `spec_step` and `spec_render_bounds` preserve it, so the bounds hold
/// of every reachable state.  Down at the bound and Up at zero change
/// nothing.
pub proof fn lemma_navigation_bounds(v: NavView, e: NavEvent, count: usize)
    requires
        v.wf(),
        count >= 1,
    ensures
        spec_step(v, e, count).0.wf(),
        spec_render_bounds(v, count).wf(),
        v.selected == v.max ==> spec_step(v, NavEvent::Down, count).0 == v,
        v.selected == 0 ==> spec_step(v, NavEvent::Up, count).0 == v,
{
}

/// Descending and then ascending is symmetric: the descent deepens the
/// stack by exactly one, and the matching ascent restores the screen,
/// the stack, and exactly the selection that was active before the
/// descent (the tunnel count still covers it, so the clamp never
/// fires).
pub proof fn lemma_stack_symmetry(v: NavView, count: usize)
    requires
        v.wf(),
        v.screen is Overview,
        count >= 1,
        v.selected < count,
    ensures
        ({
            let v1 = spec_step(v, NavEvent::Activate, count).0;
            let v2 = spec_step(v1, NavEvent::Back, count).0;
            &&& v1.stack.len() == v.stack.len() + 1
            &&& v2.screen == v.screen
            &&& v2.selected == v.selected
            &&& v2.stack == v.stack
        }),
{
    let v1 = spec_step(v, NavEvent::Activate, count).0;
    assert(v1.stack.last() == v.selected);
    assert(v1.stack.drop_last() =~= v.stack);
}

} // verus!
