//! The decisions of a binding between a changing source value and work done
//! for it elsewhere: when a value is handed over, and when the binding
//! counts as loading.

use vstd::prelude::*;

verus! {

/// What can happen to a binding.
#[derive(Clone, Copy, Debug, PartialEq, Eq, Structural)]
pub enum BindingEvent {
    /// The source was read. `ran_before` says whether it had been read
    /// before; `enabled` is the binding's condition at this moment.
    SourceRead { ran_before: bool, enabled: bool },
    /// A result came back.
    Fetched,
}

/// What a binding does in answer to an event.
#[derive(Clone, Copy, Debug, PartialEq, Eq, Structural)]
pub struct BindingStep {
    /// Whether the binding is waiting for a result afterwards.
    pub loading: bool,
    /// Whether the value just read is to be handed over.
    pub forward: bool,
}

/// The first reading of the source only records it. Every later reading
/// hands the value over if the binding is enabled, and the binding is
/// loading from then on. Any result that comes back ends the loading.
pub open spec fn binding_transition(loading: bool, event: BindingEvent) -> BindingStep {
    match event {
        BindingEvent::SourceRead { ran_before, enabled } => {
            if ran_before && enabled {
                BindingStep { loading: true, forward: true }
            } else {
                BindingStep { loading, forward: false }
            }
        },
        BindingEvent::Fetched => BindingStep { loading: false, forward: false },
    }
}

/// What a binding that is `loading` or not does in answer to `event`.
pub fn binding_step(loading: bool, event: BindingEvent) -> (step: BindingStep)
    ensures
        step == binding_transition(loading, event),
{
    match event {
        BindingEvent::SourceRead { ran_before, enabled } => {
            if ran_before && enabled {
                BindingStep { loading: true, forward: true }
            } else {
                BindingStep { loading, forward: false }
            }
        },
        BindingEvent::Fetched => BindingStep { loading: false, forward: false },
    }
}

} // verus!
