//! Renderers: pure functions from a state to a view.

use vstd::prelude::*;

verus! {

/// Draws a state. A renderer reads the state and never changes it; what it
/// draws is a function of the renderer and the state, given by `drawn`.
/// Nodes that react to events name the message to dispatch; the embedding
/// runtime dispatches it when the event arrives.
pub trait Renderer {
    /// The state that the renderer draws.
    type Target;

    /// The view that the renderer produces.
    type Node;

    /// The view of `target`.
    spec fn drawn(&self, target: Self::Target) -> Self::Node;

    /// The view that stands in for a state that cannot be read just now.
    spec fn blank(&self) -> Self::Node;

    /// Draws `target`.
    fn view(&self, target: &Self::Target) -> (node: Self::Node)
        ensures
            node == self.drawn(*target),
    ;

    /// Draws the placeholder.
    fn template(&self) -> (node: Self::Node)
        ensures
            node == self.blank(),
    ;
}

} // verus!
