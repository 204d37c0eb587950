use vstd::prelude::*;

verus! {

/// One slot of a node arena or of a template graph.
///
/// `Con` and `Dup` carry their two auxiliary ports, each an index into the
/// same node space; the principal port is implicit in the slot's position.
/// `Var` is a half-edge placeholder carrying a variable id; the two ends of
/// one wire are the two `Var` nodes that share an id.  `Ref` names a
/// definition in the book and expands on interaction.  `Free` is the
/// sentinel for an unoccupied arena slot and never a valid agent.
#[derive(Clone, Copy, Debug, PartialEq, Eq, Structural)]
pub enum Node {
    Free,
    Era,
    Con(usize, usize),
    Dup(usize, usize),
    Var(usize),
    Ref(usize),
}

impl Node {
    /// An occupied slot: anything but the `Free` sentinel.
    pub open spec fn is_occupied(self) -> bool {
        !(self is Free)
    }

    /// An agent proper: occupied and not a wire placeholder.
    pub open spec fn is_agent(self) -> bool {
        self.is_occupied() && !(self is Var)
    }
}

} // verus!
