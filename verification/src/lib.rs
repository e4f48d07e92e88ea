//! State and colour logic for a small widget toolkit: a light/dark colour
//! model with percentage arithmetic, the popover exclusivity rule, dropdown
//! selection, and the state machines of the auxiliary widgets.

pub mod components;
pub mod dropdown;
pub mod popover;
pub mod resource;
pub mod style;
