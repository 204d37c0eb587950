use vstd::prelude::*;

use crate::node::Node;

verus! {

/// Mathematical model of a template graph: the node list, the number of
/// variable pairs allocated so far, and the redexes to seed on
/// instantiation.
#[verifier::ext_equal]
pub ghost struct DescView {
    pub nodes: Seq<Node>,
    pub n_vars: nat,
    pub redexes: Seq<(usize, usize)>,
}

/// A template graph: an ordered list of nodes using template-local indices,
/// a count of variable pairs, and an unordered list of local index pairs to
/// seed as redexes when the template is instantiated.
pub struct NetDesc {
    pub nodes: Vec<Node>,
    pub n_vars: usize,
    pub redexes: Vec<(usize, usize)>,
}

impl View for NetDesc {
    type V = DescView;

    open spec fn view(&self) -> DescView {
        DescView { nodes: self.nodes@, n_vars: self.n_vars as nat, redexes: self.redexes@ }
    }
}

/// A template node is well formed when every index it carries stays inside
/// the template: ports address template nodes, variable ids address
/// allocated variable pairs, and the `Free` sentinel never appears.
pub open spec fn template_node_wf(n: Node, n_nodes: int, n_vars: int) -> bool {
    match n {
        Node::Free => false,
        Node::Era => true,
        Node::Con(p0, p1) => p0 < n_nodes && p1 < n_nodes,
        Node::Dup(p0, p1) => p0 < n_nodes && p1 < n_nodes,
        Node::Var(v) => v < n_vars,
        Node::Ref(_) => true,
    }
}

/// A well-formed template: every node is well formed and every stored redex
/// endpoint is a template node index.
pub open spec fn desc_wf(d: DescView) -> bool {
    &&& forall|i: int|
        0 <= i < d.nodes.len() ==> template_node_wf(
            #[trigger] d.nodes[i],
            d.nodes.len() as int,
            d.n_vars as int,
        )
    &&& forall|i: int|
        0 <= i < d.redexes.len() ==> (#[trigger] d.redexes[i]).0 < d.nodes.len()
            && d.redexes[i].1 < d.nodes.len()
}

impl NetDesc {
    /// An empty template: no nodes, no variable pairs, no seed redexes.
    pub fn new() -> (d: NetDesc)
        ensures
            d@.nodes == Seq::<Node>::empty(),
            d@.n_vars == 0,
            d@.redexes == Seq::<(usize, usize)>::empty(),
    {
        NetDesc { nodes: Vec::new(), n_vars: 0, redexes: Vec::new() }
    }

    /// Appends one node to the template and returns its local index.
    pub fn add_node(&mut self, node: Node) -> (idx: usize)
        ensures
            final(self)@.nodes == old(self)@.nodes.push(node),
            final(self)@.n_vars == old(self)@.n_vars,
            final(self)@.redexes == old(self)@.redexes,
            idx == old(self)@.nodes.len(),
    {
        self.nodes.push(node);
        self.nodes.len() - 1
    }

    /// Allocates one fresh variable pair: two `Var` nodes sharing one new
    /// id, returned as their two local indices.  Feeding the two indices to
    /// two different positions models sharing one wire.
    pub fn add_var(&mut self) -> (r: (usize, usize))
        requires
            old(self).n_vars < usize::MAX,
        ensures
            final(self)@.n_vars == old(self)@.n_vars + 1,
            final(self)@.nodes == old(self)@.nodes.push(Node::Var(old(self).n_vars)).push(
                Node::Var(old(self).n_vars),
            ),
            final(self)@.redexes == old(self)@.redexes,
            r.0 == old(self)@.nodes.len(),
            r.1 == old(self)@.nodes.len() + 1,
    {
        self.n_vars = self.n_vars + 1;
        let v1 = self.add_node(Node::Var(self.n_vars - 1));
        let v2 = self.add_node(Node::Var(self.n_vars - 1));
        (v1, v2)
    }

    /// Records one unordered pair of local indices to be pushed as a redex
    /// when the template is instantiated.
    pub fn add_redex(&mut self, a: usize, b: usize)
        ensures
            final(self)@.redexes == old(self)@.redexes.push((a, b)),
            final(self)@.nodes == old(self)@.nodes,
            final(self)@.n_vars == old(self)@.n_vars,
    {
        self.redexes.push((a, b));
    }
}

} // verus!
