//! The selection logic of a dropdown: which entry of its list is current,
//! how choosing an entry and pressing a stepper button change that, and
//! what is reported to the owner of the dropdown.

use crate::popover::transition;
use crate::popover::PopoverEvent;
use crate::popover::PopoverState;
use crate::style::Adjustment;
use crate::style::Branch;
use crate::style::Channel;
use crate::style::ColorPalette;
use crate::style::LightDark;
use crate::style::LightDarkModel;
use crate::style::ResponsiveColor;
use crate::style::ResponsiveModel;
use vstd::prelude::*;

verus! {

/// `im::Vector`, the persistent sequence that holds the entries of a
/// dropdown. Its inner structure is not looked into.
#[verifier::external_type_specification]
#[verifier::external_body]
#[verifier::reject_recursive_types(A)]
pub struct ExVector<A>(im::Vector<A>);

/// The entries that a vector of strings holds, first to last, each as its
/// sequence of characters.
pub uninterp spec fn items(data: im::Vector<String>) -> Seq<Seq<char>>;

/// `im::Vector::len`: the number of entries.
#[verifier::external_body]
fn vector_len(data: &im::Vector<String>) -> (n: usize)
    ensures
        n == items(*data).len(),
{
    data.len()
}

/// `im::Vector::get`: the entry at `index`, or nothing where `index` is not
/// below the length.
#[verifier::external_body]
fn vector_get(data: &im::Vector<String>, index: usize) -> (entry: Option<&String>)
    ensures
        match entry {
            Some(s) => index < items(*data).len() && s@ == items(*data)[index as int],
            None => index >= items(*data).len(),
        },
{
    data.get(index)
}

/// The buttons of a dropdown's anchor.
#[derive(Clone, Copy, Debug, PartialEq, Eq, Structural)]
pub enum ArrowSelect {
    /// The upper stepper button: one entry back.
    TopLeft,
    /// The lower stepper button: one entry on.
    BottomLeft,
    /// The disclosure arrow.
    Right,
}

impl ArrowSelect {
    /// Whether the button shows an arrow that points up. The upper stepper
    /// button does; the lower one and the disclosure arrow point down.
    pub fn points_up(self) -> (up: bool)
        ensures
            up == (self is TopLeft),
    {
        match self {
            ArrowSelect::TopLeft => true,
            ArrowSelect::BottomLeft => false,
            ArrowSelect::Right => false,
        }
    }
}

/// How choosing an entry or pressing a stepper button changes the current
/// index.
#[derive(Debug)]
pub struct Selection {
    /// The index of the current entry afterwards.
    pub index: usize,
    /// The value to hand to the owner's callback, where it is to be called:
    /// it is called once with this value, or not at all.
    pub notify: Option<String>,
}

/// The index that is current after `item` was chosen: the first place where
/// `item` stands in `entries`, or `current` as before where it stands
/// nowhere.
pub open spec fn selected_index(entries: Seq<Seq<char>>, item: Seq<char>, current: int) -> int {
    match entries.index_of_first(item) {
        Some(i) => i,
        None => current,
    }
}

/// The index that is current after a stepper button was pressed: one back
/// for the upper button and one on for any other, or `current` as before
/// where that would leave the list.
pub open spec fn stepped_index(selector: ArrowSelect, current: int, len: int) -> int {
    let target = stepped_target(selector, current);
    if 0 <= target < len {
        target
    } else {
        current
    }
}

/// The index that a stepper button aims at: one back for the upper button
/// and one on for any other.
pub open spec fn stepped_target(selector: ArrowSelect, current: int) -> int {
    match selector {
        ArrowSelect::TopLeft => current - 1,
        _ => current + 1,
    }
}

/// The first index at which `item` stands in `data`.
pub fn position(data: &im::Vector<String>, item: &String) -> (found: Option<usize>)
    ensures
        match found {
            Some(i) => {
                &&& items(*data).index_of_first(item@) == Some(i as int)
                &&& i < items(*data).len()
                &&& items(*data)[i as int] == item@
                &&& forall|k: int| 0 <= k < i ==> items(*data)[k] != item@
            },
            None => {
                &&& items(*data).index_of_first(item@) is None
                &&& !items(*data).contains(item@)
            },
        },
{
    let n = vector_len(data);
    let mut i: usize = 0;
    while i < n
        invariant
            n == items(*data).len(),
            i <= n,
            forall|k: int| 0 <= k < i ==> items(*data)[k] != item@,
        decreases n - i,
    {
        if let Some(entry) = vector_get(data, i) {
            if *entry == *item {
                proof {
                    items(*data).index_of_first_ensures(item@);
                }
                return Some(i);
            }
        }
        i = i + 1;
    }
    proof {
        items(*data).index_of_first_ensures(item@);
    }
    None
}

/// The entry at `index`, where there is one.
pub fn entry_at(data: &im::Vector<String>, index: usize) -> (entry: Option<String>)
    ensures
        match entry {
            Some(s) => index < items(*data).len() && s@ == items(*data)[index as int],
            None => index >= items(*data).len(),
        },
{
    match vector_get(data, index) {
        Some(s) => Some(s.clone()),
        None => None,
    }
}

/// The index at which a dropdown starts: that of `default_val` where one is
/// given and stands in `data`, else 0.
pub fn initial_index(data: &im::Vector<String>, default_val: Option<&String>) -> (index: usize)
    ensures
        index == match default_val {
            Some(item) => selected_index(items(*data), item@, 0),
            None => 0,
        },
{
    match default_val {
        Some(item) => match position(data, item) {
            Some(i) => i,
            None => 0,
        },
        None => 0,
    }
}

/// An entry of the list was chosen. The current index becomes the first
/// place of `item` in `data`, or stays where `item` is not in `data`; either
/// way `item` is reported.
pub fn select(data: &im::Vector<String>, item: &String, current: usize) -> (outcome: Selection)
    ensures
        outcome.index == selected_index(items(*data), item@, current as int),
        (outcome.notify matches Some(s) && s@ == item@),
{
    let index = match position(data, item) {
        Some(i) => i,
        None => current,
    };
    Selection { index, notify: Some(item.clone()) }
}

/// A stepper button was pressed. The current index moves by one where that
/// keeps it inside `data`, and the entry it moved to is reported; else
/// nothing changes and nothing is reported.
pub fn increment_and_select(selector: ArrowSelect, current: usize, data: &im::Vector<String>) -> (outcome:
    Selection)
    ensures
        outcome.index == stepped_index(selector, current as int, items(*data).len() as int),
        outcome.index == current ==> outcome.notify is None,
        outcome.index != current ==> (outcome.notify matches Some(s) && s@ == items(
            *data,
        )[outcome.index as int]),
{
    let n = vector_len(data);
    let target = match selector {
        ArrowSelect::TopLeft => current.checked_sub(1),
        _ => current.checked_add(1),
    };
    let unchanged = Selection { index: current, notify: None };
    match target {
        Some(index) => match vector_get(data, index) {
            Some(entry) => Selection { index, notify: Some(entry.clone()) },
            None => unchanged,
        },
        None => unchanged,
    }
}

/// Choosing an entry that is in the list makes its first place current;
/// choosing one that is not leaves the current index alone.
pub proof fn lemma_selection_finds_first(entries: Seq<Seq<char>>, item: Seq<char>, current: int)
    ensures
        entries.contains(item) ==> {
            let i = selected_index(entries, item, current);
            &&& 0 <= i < entries.len()
            &&& entries[i] == item
            &&& forall|k: int| 0 <= k < i ==> entries[k] != item
        },
        !entries.contains(item) ==> selected_index(entries, item, current) == current,
{
    entries.index_of_first_ensures(item);
}

/// A stepper button moves the index by at most one and never out of the
/// list; the upper button does nothing at the first entry, and the lower
/// one nothing at the last.
pub proof fn lemma_step_is_clamped(selector: ArrowSelect, current: int, len: int)
    requires
        0 <= current < len,
    ensures
        0 <= stepped_index(selector, current, len) < len,
        selector is TopLeft ==> stepped_index(selector, current, len) == if current == 0 {
            0
        } else {
            current - 1
        },
        !(selector is TopLeft) ==> stepped_index(selector, current, len) == if current == len
            - 1 {
            current
        } else {
            current + 1
        },
{
}

/// A dropdown between two events: which entry is current, and whether the
/// list of entries is showing.
#[derive(Clone, Copy, Debug, PartialEq, Eq, Structural)]
pub struct DropdownState {
    pub index: usize,
    pub overlay: PopoverState,
}

/// What a dropdown does in answer to an event.
#[derive(Debug)]
pub struct DropdownStep {
    /// The dropdown afterwards.
    pub state: DropdownState,
    /// The value to hand to the owner's callback, where it is to be called:
    /// it is called once with this value, or not at all.
    pub notify: Option<String>,
    /// Whether the shared close-all signal has to fire before the dropdown
    /// takes up `state`.
    pub close_others: bool,
}

impl DropdownState {
    /// A dropdown over `data` with its list closed. Its current entry is
    /// the first that equals `default_val`, or the first of all where none
    /// does or no default is given.
    pub fn new(data: &im::Vector<String>, default_val: Option<&String>) -> (state: Self)
        ensures
            state.overlay is Closed,
            state.index == match default_val {
                Some(item) => selected_index(items(*data), item@, 0),
                None => 0,
            },
    {
        DropdownState { index: initial_index(data, default_val), overlay: PopoverState::Closed }
    }

    /// The text of the current entry, where the index names one.
    pub fn label(&self, data: &im::Vector<String>) -> (text: Option<String>)
        ensures
            match text {
                Some(s) => self.index < items(*data).len() && s@ == items(*data)[self.index as int],
                None => self.index >= items(*data).len(),
            },
    {
        entry_at(data, self.index)
    }

    /// One of the anchor's buttons is pressed. The disclosure arrow opens
    /// or closes the list as any popover does and leaves the index alone.
    /// A stepper button moves the index as [`increment_and_select`] says
    /// and leaves the list alone.
    pub fn press(self, arrow: ArrowSelect, data: &im::Vector<String>) -> (step: DropdownStep)
        ensures
            arrow is Right ==> {
                &&& step.state.index == self.index
                &&& step.state.overlay == transition(self.overlay, PopoverEvent::Interact).next
                &&& step.close_others == transition(
                    self.overlay,
                    PopoverEvent::Interact,
                ).close_others
                &&& step.notify is None
            },
            !(arrow is Right) ==> {
                &&& step.state.index == stepped_index(
                    arrow,
                    self.index as int,
                    items(*data).len() as int,
                )
                &&& step.state.overlay == self.overlay
                &&& !step.close_others
                &&& step.state.index == self.index ==> step.notify is None
                &&& step.state.index != self.index ==> (step.notify matches Some(s) && s@ == items(
                    *data,
                )[step.state.index as int])
            },
    {
        match arrow {
            ArrowSelect::Right => {
                let t = self.overlay.step(PopoverEvent::Interact);
                DropdownStep {
                    state: DropdownState { index: self.index, overlay: t.next },
                    notify: None,
                    close_others: t.close_others,
                }
            },
            _ => {
                let moved = increment_and_select(arrow, self.index, data);
                DropdownStep {
                    state: DropdownState { index: moved.index, overlay: self.overlay },
                    notify: moved.notify,
                    close_others: false,
                }
            },
        }
    }

    /// An entry of the list is chosen. The index moves to the first place
    /// of `item` in `data`, or stays where `item` is not in `data`. Either
    /// way `item` is reported, and the list closes without a word to the
    /// other popovers.
    pub fn pick(self, item: &String, data: &im::Vector<String>) -> (step: DropdownStep)
        ensures
            step.state.index == selected_index(items(*data), item@, self.index as int),
            step.state.overlay is Closed,
            (step.notify matches Some(s) && s@ == item@),
            !step.close_others,
    {
        let chosen = select(data, item, self.index);
        DropdownStep {
            state: DropdownState { index: chosen.index, overlay: PopoverState::Closed },
            notify: chosen.notify,
            close_others: false,
        }
    }

    /// The shared close-all signal fired or the window was clicked: the
    /// list closes and the current entry stays.
    pub fn dismiss(self) -> (state: Self)
        ensures
            state.index == self.index,
            state.overlay == transition(self.overlay, PopoverEvent::CloseAll).next,
            state.overlay is Closed,
    {
        DropdownState { index: self.index, overlay: self.overlay.step(PopoverEvent::CloseAll).next }
    }
}

/// The colours of a dropdown, each to be overridden on its own.
#[derive(Clone, Copy, Debug, PartialEq, Eq, Structural)]
pub struct DropDownColors {
    pub main_box_back: LightDark,
    pub main_box_border: LightDark,
    pub arrow: ResponsiveColor,
    pub button_cont: ResponsiveColor,
    pub drop_box_back: LightDark,
    pub drop_box_border: LightDark,
    pub sel_cont: ResponsiveColor,
}

impl DropDownColors {
    /// The colours that mark a selected entry: those that follow from the
    /// accent shifted back by 10, with the pressed colours the same as the
    /// hovered ones.
    pub open spec fn selection(accent: LightDarkModel) -> ResponsiveModel {
        let derived = ResponsiveModel::derive(ResponsiveModel::shifted_back(accent, 10));
        ResponsiveModel { active: derived.hover, ..derived }
    }

    /// The colours a dropdown has unless told otherwise, taken from
    /// `palette`.
    pub fn from_palette(palette: &ColorPalette) -> (colors: Self)
        ensures
            colors.main_box_back@ == (LightDarkModel {
                light: palette.transparent@,
                dark: palette.transparent@,
                reversed: false,
            }),
            colors.main_box_border == palette.border_ld,
            colors.arrow@ == ResponsiveModel::derive(LightDarkModel::transparent().reverse()),
            colors.sel_cont@ == Self::selection(palette.accent_ld@),
            colors.button_cont@ == (ResponsiveModel {
                base: LightDarkModel::transparent(),
                ..Self::selection(palette.accent_ld@)
            }),
            colors.drop_box_back@ == (LightDarkModel {
                light: palette.light2@,
                dark: palette.dark1@,
                reversed: false,
            }),
            colors.drop_box_border@ == (LightDarkModel {
                light: palette.light3@,
                dark: palette.dark3@,
                reversed: true,
            }),
    {
        let accent = ResponsiveColor::from_lightdark(
            palette.accent_ld.adjust(
                Branch::Dark,
                Channel::Light,
                Adjustment::DecreaseCap,
                10,
            ).adjust(Branch::Light, Channel::Light, Adjustment::IncreaseCap, 10),
        ).reduce_active_to_hover();
        DropDownColors {
            main_box_back: LightDark::new(palette.transparent, palette.transparent),
            main_box_border: palette.border_ld,
            arrow: ResponsiveColor::from_lightdark(LightDark::default().reverse()),
            button_cont: accent.disable_base(),
            drop_box_back: LightDark::new(palette.light2, palette.dark1),
            drop_box_border: LightDark::new(palette.light3, palette.dark3).reverse(),
            sel_cont: accent,
        }
    }
}

} // verus!
