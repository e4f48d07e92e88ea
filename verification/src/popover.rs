//! The popover exclusivity rule: every popover, dropdown or edit field is
//! open or closed on its own account, and opening one closes all others
//! through a signal that they share.

use vstd::prelude::*;

verus! {

/// Whether one popover is showing.
#[derive(Clone, Copy, Debug, PartialEq, Eq, Structural)]
pub enum PopoverState {
    Closed,
    Open,
}

/// What can happen to one popover.
#[derive(Clone, Copy, Debug, PartialEq, Eq, Structural)]
pub enum PopoverEvent {
    /// The user acted on this popover's own anchor.
    Interact,
    /// The shared close-all signal fired.
    CloseAll,
    /// The window was clicked somewhere.
    WindowClicked,
}

/// What one popover does in answer to an event.
#[derive(Clone, Copy, Debug, PartialEq, Eq, Structural)]
pub struct Transition {
    /// The state the popover is in afterwards.
    pub next: PopoverState,
    /// Whether the shared close-all signal has to fire before the popover
    /// takes up `next`.
    pub close_others: bool,
}

/// The transition table of one popover. A closed popover whose anchor is
/// used closes all others and opens. An open one whose anchor is used closes
/// and leaves the others alone. The shared signal and a click in the window
/// are treated alike: either closes the popover whatever its state.
pub open spec fn transition(state: PopoverState, event: PopoverEvent) -> Transition {
    match (state, event) {
        (PopoverState::Closed, PopoverEvent::Interact) => Transition {
            next: PopoverState::Open,
            close_others: true,
        },
        (PopoverState::Open, PopoverEvent::Interact) => Transition {
            next: PopoverState::Closed,
            close_others: false,
        },
        (_, PopoverEvent::CloseAll) => Transition {
            next: PopoverState::Closed,
            close_others: false,
        },
        (_, PopoverEvent::WindowClicked) => Transition {
            next: PopoverState::Closed,
            close_others: false,
        },
    }
}

impl PopoverState {
    /// Whether the popover is showing.
    pub fn is_open(self) -> (open: bool)
        ensures
            open == (self is Open),
    {
        match self {
            PopoverState::Open => true,
            PopoverState::Closed => false,
        }
    }

    /// What a popover in this state does in answer to `event`.
    pub fn step(self, event: PopoverEvent) -> (t: Transition)
        ensures
            t == transition(self, event),
    {
        match event {
            PopoverEvent::CloseAll | PopoverEvent::WindowClicked => Transition {
                next: PopoverState::Closed,
                close_others: false,
            },
            PopoverEvent::Interact => match self {
                PopoverState::Closed => Transition {
                    next: PopoverState::Open,
                    close_others: true,
                },
                PopoverState::Open => Transition {
                    next: PopoverState::Closed,
                    close_others: false,
                },
            },
        }
    }
}

/// At most one of the popovers in `states` is open.
pub open spec fn exclusive(states: Seq<PopoverState>) -> bool {
    forall|i: int, j: int|
        0 <= i < states.len() && 0 <= j < states.len() && states[i] is Open && states[j] is Open
            ==> i == j
}

/// The popovers after the shared signal has fired: each one has taken it.
pub open spec fn dismissed(states: Seq<PopoverState>) -> Seq<PopoverState> {
    Seq::new(states.len(), |k: int| transition(states[k], PopoverEvent::CloseAll).next)
}

/// The popovers after the anchor of popover `i` was used: where its
/// transition asks for it, all of them are dismissed first; then popover `i`
/// takes up its next state.
pub open spec fn interacted(states: Seq<PopoverState>, i: int) -> Seq<PopoverState> {
    let t = transition(states[i], PopoverEvent::Interact);
    let others = if t.close_others {
        dismissed(states)
    } else {
        states
    };
    others.update(i, t.next)
}

/// The popovers of one window, in the order in which they were added.
pub struct PopoverGroup {
    states: Vec<PopoverState>,
}

impl View for PopoverGroup {
    type V = Seq<PopoverState>;

    closed spec fn view(&self) -> Seq<PopoverState> {
        self.states@
    }
}

impl PopoverGroup {
    /// A window without popovers.
    pub fn new() -> (group: Self)
        ensures
            group@ == Seq::<PopoverState>::empty(),
            exclusive(group@),
    {
        PopoverGroup { states: Vec::new() }
    }

    /// The number of popovers.
    pub fn len(&self) -> (n: usize)
        ensures
            n == self@.len(),
    {
        self.states.len()
    }

    /// Adds a closed popover and returns its index.
    pub fn add(&mut self) -> (id: usize)
        ensures
            final(self)@ == old(self)@.push(PopoverState::Closed),
            id == old(self)@.len(),
            exclusive(old(self)@) ==> exclusive(final(self)@),
    {
        let id = self.states.len();
        self.states.push(PopoverState::Closed);
        id
    }

    /// Whether popover `id` exists and is open.
    pub fn is_open(&self, id: usize) -> (open: bool)
        ensures
            open == (id < self@.len() && self@[id as int] is Open),
    {
        id < self.states.len() && self.states[id].is_open()
    }

    /// The shared signal fires, or the window is clicked: every popover
    /// closes.
    pub fn dismiss_all(&mut self)
        ensures
            final(self)@ == dismissed(old(self)@),
            final(self)@ == Seq::new(old(self)@.len(), |k: int| PopoverState::Closed),
            exclusive(final(self)@),
    {
        let n = self.states.len();
        let mut k: usize = 0;
        while k < n
            invariant
                n == self.states@.len(),
                n == old(self).states@.len(),
                k <= n,
                forall|m: int| 0 <= m < k ==> self.states@[m] == dismissed(old(self).states@)[m],
                forall|m: int| k <= m < n ==> self.states@[m] == old(self).states@[m],
            decreases n - k,
        {
            let t = self.states[k].step(PopoverEvent::CloseAll);
            self.states.set(k, t.next);
            k = k + 1;
        }
        assert(self.states@ =~= dismissed(old(self).states@));
    }

    /// The anchor of popover `id` is used. Returns whether that popover is
    /// open afterwards. An `id` that names no popover changes nothing.
    pub fn interact(&mut self, id: usize) -> (open: bool)
        ensures
            id < old(self)@.len() ==> final(self)@ == interacted(old(self)@, id as int),
            id >= old(self)@.len() ==> final(self)@ == old(self)@,
            open == (id < final(self)@.len() && final(self)@[id as int] is Open),
            exclusive(old(self)@) ==> exclusive(final(self)@),
    {
        if id >= self.states.len() {
            return false;
        }
        let t = self.states[id].step(PopoverEvent::Interact);
        if t.close_others {
            self.dismiss_all();
        }
        self.states.set(id, t.next);
        t.next.is_open()
    }
}

/// Opening popover `i` while another popover `j` is open leaves `i` as the
/// only open one: `j` and every other popover are closed afterwards.
pub proof fn lemma_opening_closes_all_others(states: Seq<PopoverState>, i: int, j: int)
    requires
        0 <= i < states.len(),
        0 <= j < states.len(),
        i != j,
        states[i] is Closed,
        states[j] is Open,
    ensures
        interacted(states, i).len() == states.len(),
        interacted(states, i)[i] is Open,
        interacted(states, i)[j] is Closed,
        forall|k: int| 0 <= k < states.len() && k != i ==> interacted(states, i)[k] is Closed,
        exclusive(interacted(states, i)),
{
}

/// A click in the window does to a popover what the shared signal does,
/// and after either the popover is closed.
pub proof fn lemma_window_click_is_a_dismissal(state: PopoverState)
    ensures
        transition(state, PopoverEvent::WindowClicked) == transition(
            state,
            PopoverEvent::CloseAll,
        ),
        transition(state, PopoverEvent::CloseAll).next is Closed,
        !transition(state, PopoverEvent::CloseAll).close_others,
{
}

/// The popover whose anchor was used ends in the state that its own
/// transition names, whether or not the shared signal fired on the way.
pub proof fn lemma_own_anchor_decides(states: Seq<PopoverState>, i: int)
    requires
        0 <= i < states.len(),
    ensures
        interacted(states, i)[i] == transition(states[i], PopoverEvent::Interact).next,
        interacted(states, i)[i] is Open <==> states[i] is Closed,
{
}

/// Using the anchor of an open popover closes that one and changes no
/// other.
pub proof fn lemma_closing_is_local(states: Seq<PopoverState>, i: int)
    requires
        0 <= i < states.len(),
        states[i] is Open,
    ensures
        interacted(states, i) == states.update(i, PopoverState::Closed),
{
}

/// At most one popover is open at any time: that holds of a window without
/// popovers, and adding a popover, using an anchor and firing the shared
/// signal all keep it.
pub proof fn lemma_exclusivity_is_invariant(states: Seq<PopoverState>, i: int)
    requires
        exclusive(states),
    ensures
        exclusive(Seq::<PopoverState>::empty()),
        exclusive(states.push(PopoverState::Closed)),
        exclusive(dismissed(states)),
        0 <= i < states.len() ==> exclusive(interacted(states, i)),
{
}

} // verus!
