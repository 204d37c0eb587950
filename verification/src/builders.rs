use vstd::prelude::*;

use crate::desc::{DescView, NetDesc};
use crate::node::Node;

verus! {

/// The template after appending one node.
pub open spec fn dv_add_node(d: DescView, n: Node) -> DescView {
    DescView { nodes: d.nodes.push(n), ..d }
}

/// The template after allocating one variable pair.
pub open spec fn dv_add_var(d: DescView) -> DescView {
    DescView {
        nodes: d.nodes.push(Node::Var(d.n_vars as usize)).push(Node::Var(d.n_vars as usize)),
        n_vars: d.n_vars + 1,
        ..d
    }
}

/// The template after recording one seed redex.
pub open spec fn dv_add_redex(d: DescView, a: usize, b: usize) -> DescView {
    DescView { redexes: d.redexes.push((a, b)), ..d }
}

/// `mux3(a, b, c)`: a right-leaning CON tree `con(a, con(b, c))` folding
/// a 3-tuple into one wire; the returned index is the outer `Con`.
pub open spec fn dv_mux3(d: DescView, a: usize, b: usize, c: usize) -> DescView {
    let inner = d.nodes.len();
    dv_add_node(dv_add_node(d, Node::Con(b, c)), Node::Con(a, inner as usize))
}

/// `demux3(inp, a, b, c)`: the dual projection `con(con(c, b), a)`,
/// seeded as a redex against `inp`.  The `(c, b)` order inside the inner
/// `Con` is reversed relative to `mux3`'s `(b, c)`: the annihilation
/// rule reconnects ports crosswise, so this asymmetry is what routes
/// each component back to its own wire.
pub open spec fn dv_demux3(d: DescView, inp: usize, a: usize, b: usize, c: usize) -> DescView {
    let inner = d.nodes.len();
    dv_add_redex(
        dv_add_node(dv_add_node(d, Node::Con(c, b)), Node::Con(inner as usize, a)),
        ((inner + 1) as usize),
        inp,
    )
}

/// The Church numeral zero: a fresh variable pair `(v1, v2)` and an
/// `Era`, folded as `mux3(era, v1, v2)`.
pub open spec fn dv_church_zero(d: DescView) -> DescView {
    let l = d.nodes.len();
    dv_mux3(
        dv_add_node(dv_add_var(d), Node::Era),
        ((l + 2) as usize),
        (l as usize),
        ((l + 1) as usize),
    )
}

/// Local index of the numeral built by `dv_church_zero`.
pub open spec fn dv_church_zero_ret(d: DescView) -> int {
    d.nodes.len() as int + 4
}

/// The successor of the numeral rooted at `n`: a fresh pair `(v1, v2)`,
/// `con(n, v1)`, an `Era`, folded as `mux3(con, era, v2)`.
pub open spec fn dv_church_succ(d: DescView, n: usize) -> DescView {
    let l = d.nodes.len();
    dv_mux3(
        dv_add_node(dv_add_node(dv_add_var(d), Node::Con(n, (l as usize))), Node::Era),
        ((l + 2) as usize),
        ((l + 3) as usize),
        ((l + 1) as usize),
    )
}

/// Local index of the numeral built by `dv_church_succ`.
pub open spec fn dv_church_succ_ret(d: DescView) -> int {
    d.nodes.len() as int + 5
}

/// The numeral `k`: `church_succ` folded `k` times over `church_0`.
pub open spec fn dv_church_n(d: DescView, k: nat) -> DescView
    decreases k,
{
    if k == 0 {
        dv_church_zero(d)
    } else {
        let prev = dv_church_n(d, (k - 1) as nat);
        dv_church_succ(prev, dv_church_n_ret(d, (k - 1) as nat) as usize)
    }
}

/// Local index of the numeral built by `dv_church_n`.
pub open spec fn dv_church_n_ret(d: DescView, k: nat) -> int
    decreases k,
{
    if k == 0 {
        dv_church_zero_ret(d)
    } else {
        dv_church_succ_ret(dv_church_n(d, (k - 1) as nat))
    }
}

/// Each `church_succ` layer allocates exactly one variable pair on top of
/// the one `church_0` allocates.
pub proof fn lemma_church_n_vars(d: DescView, k: nat)
    ensures
        dv_church_n(d, k).n_vars == d.n_vars + k + 1,
        dv_church_n_ret(d, k) < dv_church_n(d, k).nodes.len(),
    decreases k,
{
    if k > 0 {
        lemma_church_n_vars(d, (k - 1) as nat);
    }
}

/// `church_ifz(inp, zero_branch, nonzero_branch, output)`: an `Era`,
/// `con(nonzero_branch, era)`, then `demux3(inp, con, zero_branch,
/// output)` — the one control-flow primitive: `output` receives
/// `zero_branch` when `inp` is zero, else `nonzero_branch`, the unwrapped
/// predecessor being discarded.
pub open spec fn dv_church_ifz(
    d: DescView,
    inp: usize,
    zero_branch: usize,
    nzero_branch: usize,
    output: usize,
) -> DescView {
    let l = d.nodes.len();
    dv_demux3(
        dv_add_node(dv_add_node(d, Node::Era), Node::Con(nzero_branch, (l as usize))),
        inp,
        ((l + 1) as usize),
        zero_branch,
        output,
    )
}

/// `church_pred(n, out)`: a fresh pair `(v1, v2)`, `con(v1, v2)`, a fresh
/// zero, then `demux3(n, con, zero, out)` — `out` receives the
/// predecessor of `n`, or zero when `n` is zero.
pub open spec fn dv_church_pred(d: DescView, n: usize, out: usize) -> DescView {
    let l = d.nodes.len();
    dv_demux3(
        dv_church_zero(dv_add_node(dv_add_var(d), Node::Con((l as usize), ((l + 1) as usize)))),
        n,
        ((l + 2) as usize),
        (dv_church_zero_ret(dv_add_node(dv_add_var(d), Node::Con((l as usize), ((l + 1) as usize))))
            as usize),
        out,
    )
}

impl NetDesc {
    /// Appends one `Era` node.
    pub fn make_era(&mut self) -> (idx: usize)
        ensures
            final(self)@ == dv_add_node(old(self)@, Node::Era),
            idx == old(self)@.nodes.len(),
    {
        let idx = self.add_node(Node::Era);
        proof {
            assert(self@ =~= dv_add_node(old(self)@, Node::Era));
        }
        idx
    }

    /// Appends one `Con` node with the given auxiliary ports.
    pub fn make_con(&mut self, a: usize, b: usize) -> (idx: usize)
        ensures
            final(self)@ == dv_add_node(old(self)@, Node::Con(a, b)),
            idx == old(self)@.nodes.len(),
    {
        let idx = self.add_node(Node::Con(a, b));
        proof {
            assert(self@ =~= dv_add_node(old(self)@, Node::Con(a, b)));
        }
        idx
    }

    /// Appends one `Dup` node with the given auxiliary ports.
    pub fn make_dup(&mut self, a: usize, b: usize) -> (idx: usize)
        ensures
            final(self)@ == dv_add_node(old(self)@, Node::Dup(a, b)),
            idx == old(self)@.nodes.len(),
    {
        let idx = self.add_node(Node::Dup(a, b));
        proof {
            assert(self@ =~= dv_add_node(old(self)@, Node::Dup(a, b)));
        }
        idx
    }

    /// Appends one `Ref` node naming a definition id.
    pub fn make_ref(&mut self, desc_idx: usize) -> (idx: usize)
        ensures
            final(self)@ == dv_add_node(old(self)@, Node::Ref(desc_idx)),
            idx == old(self)@.nodes.len(),
    {
        let idx = self.add_node(Node::Ref(desc_idx));
        proof {
            assert(self@ =~= dv_add_node(old(self)@, Node::Ref(desc_idx)));
        }
        idx
    }

    /// Folds a 3-tuple of wires into one via a right-leaning CON tree.
    pub fn mux3(&mut self, a: usize, b: usize, c: usize) -> (idx: usize)
        ensures
            final(self)@ == dv_mux3(old(self)@, a, b, c),
            idx == old(self)@.nodes.len() + 1,
    {
        let con = self.make_con(b, c);
        self.make_con(a, con)
    }

    /// Builds the dual projection of `mux3` and seeds it against `inp`.
    pub fn demux3(&mut self, inp: usize, a: usize, b: usize, c: usize)
        ensures
            final(self)@ == dv_demux3(old(self)@, inp, a, b, c),
    {
        let con = self.make_con(c, b);
        let demux = self.make_con(con, a);
        self.add_redex(demux, inp);
    }

    /// The Church numeral zero.
    pub fn church_0(&mut self) -> (idx: usize)
        requires
            old(self)@.n_vars < usize::MAX,
        ensures
            final(self)@ == dv_church_zero(old(self)@),
            idx == dv_church_zero_ret(old(self)@),
    {
        let pair = self.add_var();
        let e = self.make_era();
        self.mux3(e, pair.0, pair.1)
    }

    /// The successor of the numeral rooted at local index `n`.
    pub fn church_succ(&mut self, n: usize) -> (idx: usize)
        requires
            old(self)@.n_vars < usize::MAX,
        ensures
            final(self)@ == dv_church_succ(old(self)@, n),
            idx == dv_church_succ_ret(old(self)@),
    {
        let pair = self.add_var();
        let con = self.make_con(n, pair.0);
        let e = self.make_era();
        self.mux3(con, e, pair.1)
    }

    /// Wires `out` to the predecessor of the numeral rooted at `n`.
    pub fn church_pred(&mut self, n: usize, out: usize)
        requires
            old(self)@.n_vars + 2 <= usize::MAX,
        ensures
            final(self)@ == dv_church_pred(old(self)@, n, out),
    {
        let pair = self.add_var();
        let con = self.make_con(pair.0, pair.1);
        let zero = self.church_0();
        self.demux3(n, con, zero, out);
    }

    /// The Church numeral `n`, built by folding `church_succ` over
    /// `church_0`.
    pub fn church_n(&mut self, n: u64) -> (idx: usize)
        requires
            old(self)@.n_vars + n + 1 <= usize::MAX,
        ensures
            final(self)@ == dv_church_n(old(self)@, n as nat),
            idx == dv_church_n_ret(old(self)@, n as nat),
    {
        let mut node = self.church_0();
        let mut i: u64 = 0;
        proof {
            lemma_church_n_vars(old(self)@, 0);
        }
        while i < n
            invariant
                i <= n,
                old(self)@.n_vars + n + 1 <= usize::MAX,
                self@ == dv_church_n(old(self)@, i as nat),
                node == dv_church_n_ret(old(self)@, i as nat),
                self@.n_vars == old(self)@.n_vars + i + 1,
            decreases n - i,
        {
            node = self.church_succ(node);
            i = i + 1;
            proof {
                lemma_church_n_vars(old(self)@, i as nat);
            }
        }
        node
    }

    /// The conditional: `output` receives `zero_branch` when the numeral
    /// fed to `inp` is zero, else `nzero_branch`.
    pub fn church_ifz(&mut self, inp: usize, zero_branch: usize, nzero_branch: usize, output: usize)
        ensures
            final(self)@ == dv_church_ifz(old(self)@, inp, zero_branch, nzero_branch, output),
    {
        let e = self.make_era();
        let con = self.make_con(nzero_branch, e);
        self.demux3(inp, con, zero_branch, output);
    }

    /// Seeds a fresh `Era` against `node`, erasing its whole subtree when
    /// the template runs.
    pub fn erase(&mut self, node: usize)
        ensures
            final(self)@ == dv_add_redex(
                dv_add_node(old(self)@, Node::Era),
                (old(self)@.nodes.len() as usize),
                node,
            ),
    {
        let e = self.make_era();
        self.add_redex(e, node);
        proof {
            assert(self@ =~= dv_add_redex(
                dv_add_node(old(self)@, Node::Era),
                (old(self)@.nodes.len() as usize),
                node,
            ));
        }
    }
}

} // verus!
