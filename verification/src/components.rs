//! The state of the smaller widgets: the toggle switch and the label that
//! can be renamed in place.

use crate::popover::PopoverState;
use crate::style::LightDark;
use crate::style::ResponsiveColor;
use crate::style::ResponsiveModel;
use vstd::prelude::*;

verus! {

/// A switch that is on or off.
#[derive(Clone, Copy, Debug, PartialEq, Eq, Structural)]
pub struct Toggle {
    active: bool,
}

impl View for Toggle {
    type V = bool;

    closed spec fn view(&self) -> bool {
        self.active
    }
}

impl Toggle {
    /// A switch in the given state.
    pub fn new(initial_state: bool) -> (toggle: Self)
        ensures
            toggle@ == initial_state,
    {
        Toggle { active: initial_state }
    }

    /// Whether the switch is on.
    pub fn is_active(&self) -> (active: bool)
        ensures
            active == self@,
    {
        self.active
    }

    /// The switch is clicked: it changes sides. Returns the new state, which
    /// is what the owner's callback is to be called with.
    pub fn click(&mut self) -> (reported: bool)
        ensures
            final(self)@ == !old(self)@,
            reported == final(self)@,
    {
        self.active = !self.active;
        self.active
    }

    /// The colours of the track: those that follow from `accent` while the
    /// switch is on, and those that follow from `idle` while it is off.
    pub fn color(&self, accent: LightDark, idle: LightDark) -> (track: ResponsiveColor)
        ensures
            track@ == ResponsiveModel::derive(
                if self@ {
                    accent@
                } else {
                    idle@
                },
            ),
    {
        if self.active {
            ResponsiveColor::from_lightdark(accent)
        } else {
            ResponsiveColor::from_lightdark(idle)
        }
    }
}

/// A key pressed while the editor of a label has the focus.
#[derive(Clone, Copy, Debug, PartialEq, Eq, Structural)]
pub enum EditKey {
    Enter,
    Other,
}

/// What the editor of a label does in answer to a key.
#[derive(Clone, Copy, Debug, PartialEq, Eq, Structural)]
pub struct EditStep {
    /// Whether the editor is showing afterwards.
    pub editor: PopoverState,
    /// Whether the text is accepted, so that the owner's callback is to be
    /// called.
    pub accepted: bool,
}

/// The editor's answer to a key: Enter accepts the text and hides the
/// editor, whatever the owner's callback then says; any other key is left
/// to the text field.
pub open spec fn edit_transition(editor: PopoverState, key: EditKey) -> EditStep {
    match key {
        EditKey::Enter => EditStep { editor: PopoverState::Closed, accepted: true },
        EditKey::Other => EditStep { editor, accepted: false },
    }
}

/// A key is pressed in the editor of a label.
pub fn edit_key_down(editor: PopoverState, key: EditKey) -> (step: EditStep)
    ensures
        step == edit_transition(editor, key),
{
    match key {
        EditKey::Enter => EditStep { editor: PopoverState::Closed, accepted: true },
        EditKey::Other => EditStep { editor, accepted: false },
    }
}

} // verus!
