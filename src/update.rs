//! What the GUI side receives from the bridge and from its own components.
use vstd::prelude::*;

verus! {

/// One notification for the subscribers of the editor model. The payload
/// types are the GUI's prompt and picker components, the engine's
/// informational overlay, and the engine's own event.
#[derive(Debug)]
pub enum Update<P, K, I, E> {
    Redraw,
    Prompt(P),
    Picker(K),
    Info(I),
    EditorEvent(E),
}

impl<P, K, I, E> Update<P, K, I, E> {
    /// Wraps an event that the engine produced.
    pub fn editor_event(event: E) -> (u: Self)
        ensures
            u == Update::<P, K, I, E>::EditorEvent(event),
    {
        Update::EditorEvent(event)
    }

    /// True exactly for a wrapped engine event.
    pub fn is_editor_event(&self) -> (b: bool)
        ensures
            b <==> self is EditorEvent,
    {
        match self {
            Update::EditorEvent(_) => true,
            _ => false,
        }
    }
}

} // verus!
