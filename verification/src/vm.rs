use vstd::prelude::*;

use crate::book::{Book, BookView};
use crate::desc::{desc_wf, template_node_wf, DescView, NetDesc};
use crate::node::Node;

verus! {

/// Mathematical model of one engine's runtime arena: the node slots, the
/// variable slots, the two free stacks and the redex work-list.
#[verifier::ext_equal]
pub ghost struct VmView {
    pub nodes: Seq<Node>,
    pub vars: Seq<usize>,
    pub free_nodes: Seq<usize>,
    pub free_vars: Seq<usize>,
    pub redexes: Seq<(usize, usize)>,
}

/// A variable slot in the free pool, available for reallocation.
pub open spec fn var_is_free(v: usize) -> bool {
    v == 0
}

/// An allocated variable slot with no recorded target yet.
pub open spec fn var_is_unlinked(v: usize) -> bool {
    v == usize::MAX
}

/// An allocated variable slot holding the node index of its first bound
/// endpoint.  Node slot 0 is reserved, so 0 is free, not a target.
pub open spec fn var_is_linked(v: usize) -> bool {
    v != 0 && v != usize::MAX
}

/// How many node slots are occupied (not the `Free` sentinel).
pub open spec fn occupied_count(s: Seq<Node>) -> int
    decreases s.len(),
{
    if s.len() == 0 {
        0
    } else {
        occupied_count(s.drop_last()) + if s.last().is_occupied() {
            1int
        } else {
            0int
        }
    }
}

/// How many node slots hold an agent proper (occupied and not `Var`).
pub open spec fn agent_count(s: Seq<Node>) -> int
    decreases s.len(),
{
    if s.len() == 0 {
        0
    } else {
        agent_count(s.drop_last()) + if s.last().is_agent() {
            1int
        } else {
            0int
        }
    }
}

/// How many variable slots are in use (unlinked or linked, not free).
pub open spec fn used_var_count(s: Seq<usize>) -> int
    decreases s.len(),
{
    if s.len() == 0 {
        0
    } else {
        used_var_count(s.drop_last()) + if var_is_free(s.last()) {
            0int
        } else {
            1int
        }
    }
}

/// Structural sanity of the arena: slot 0 is the reserved non-node; the
/// free-node stack holds distinct indices of `Free` slots; the
/// free-variable stack holds distinct indices of free variable slots.
pub open spec fn vm_inv(v: VmView) -> bool {
    &&& v.nodes.len() >= 1
    &&& v.nodes[0] is Free
    &&& forall|i: int|
        0 <= i < v.free_nodes.len() ==> 1 <= #[trigger] v.free_nodes[i] && v.free_nodes[i]
            < v.nodes.len() && v.nodes[v.free_nodes[i] as int] is Free
    &&& forall|i: int, j: int|
        0 <= i < j < v.free_nodes.len() ==> v.free_nodes[i] != v.free_nodes[j]
    &&& forall|i: int|
        0 <= i < v.free_vars.len() ==> #[trigger] v.free_vars[i] < v.vars.len() && var_is_free(
            v.vars[v.free_vars[i] as int],
        )
    &&& forall|i: int, j: int|
        0 <= i < j < v.free_vars.len() ==> v.free_vars[i] != v.free_vars[j]
}

/// The slot the next node allocation uses: the top of the free stack, or a
/// fresh slot at the end of the arena.
pub open spec fn sv_alloc_idx(v: VmView) -> usize {
    if v.free_nodes.len() > 0 {
        v.free_nodes.last()
    } else {
        v.nodes.len() as usize
    }
}

/// The arena after allocating one node.
pub open spec fn sv_alloc(v: VmView, n: Node) -> VmView {
    if v.free_nodes.len() > 0 {
        VmView {
            nodes: v.nodes.update(v.free_nodes.last() as int, n),
            free_nodes: v.free_nodes.drop_last(),
            ..v
        }
    } else {
        VmView { nodes: v.nodes.push(n), ..v }
    }
}

/// The arena after freeing one node slot.
pub open spec fn sv_free(v: VmView, i: usize) -> VmView {
    VmView { nodes: v.nodes.update(i as int, Node::Free), free_nodes: v.free_nodes.push(i), ..v }
}

/// The variable slot the next variable allocation uses.
pub open spec fn sv_alloc_var_idx(v: VmView) -> usize {
    if v.free_vars.len() > 0 {
        v.free_vars.last()
    } else {
        v.vars.len() as usize
    }
}

/// The arena after allocating one variable: the slot starts unlinked.
pub open spec fn sv_alloc_var(v: VmView) -> VmView {
    if v.free_vars.len() > 0 {
        VmView {
            vars: v.vars.update(v.free_vars.last() as int, usize::MAX),
            free_vars: v.free_vars.drop_last(),
            ..v
        }
    } else {
        VmView { vars: v.vars.push(usize::MAX), ..v }
    }
}

/// The arena after returning one variable slot to the free pool.
pub open spec fn sv_free_var(v: VmView, id: usize) -> VmView {
    VmView { vars: v.vars.update(id as int, 0), free_vars: v.free_vars.push(id), ..v }
}

/// The arena after pushing one redex on the work-list.
pub open spec fn sv_push(v: VmView, a: usize, b: usize) -> VmView {
    VmView { redexes: v.redexes.push((a, b)), ..v }
}

proof fn lemma_occupied_count_push(s: Seq<Node>, n: Node)
    ensures
        occupied_count(s.push(n)) == occupied_count(s) + if n.is_occupied() {
            1int
        } else {
            0int
        },
{
    assert(s.push(n).drop_last() =~= s);
}

proof fn lemma_occupied_count_update(s: Seq<Node>, i: int, n: Node)
    requires
        0 <= i < s.len(),
    ensures
        occupied_count(s.update(i, n)) == occupied_count(s) - (if s[i].is_occupied() {
            1int
        } else {
            0int
        }) + (if n.is_occupied() {
            1int
        } else {
            0int
        }),
    decreases s.len(),
{
    if i == s.len() - 1 {
        assert(s.update(i, n).drop_last() =~= s.drop_last());
    } else {
        assert(s.update(i, n).drop_last() =~= s.drop_last().update(i, n));
        lemma_occupied_count_update(s.drop_last(), i, n);
    }
}

proof fn lemma_agent_count_push(s: Seq<Node>, n: Node)
    ensures
        agent_count(s.push(n)) == agent_count(s) + if n.is_agent() {
            1int
        } else {
            0int
        },
{
    assert(s.push(n).drop_last() =~= s);
}

proof fn lemma_agent_count_update(s: Seq<Node>, i: int, n: Node)
    requires
        0 <= i < s.len(),
    ensures
        agent_count(s.update(i, n)) == agent_count(s) - (if s[i].is_agent() {
            1int
        } else {
            0int
        }) + (if n.is_agent() {
            1int
        } else {
            0int
        }),
    decreases s.len(),
{
    if i == s.len() - 1 {
        assert(s.update(i, n).drop_last() =~= s.drop_last());
    } else {
        assert(s.update(i, n).drop_last() =~= s.drop_last().update(i, n));
        lemma_agent_count_update(s.drop_last(), i, n);
    }
}

proof fn lemma_used_var_count_push(s: Seq<usize>, x: usize)
    ensures
        used_var_count(s.push(x)) == used_var_count(s) + if var_is_free(x) {
            0int
        } else {
            1int
        },
{
    assert(s.push(x).drop_last() =~= s);
}

proof fn lemma_used_var_count_update(s: Seq<usize>, i: int, x: usize)
    requires
        0 <= i < s.len(),
    ensures
        used_var_count(s.update(i, x)) == used_var_count(s) - (if var_is_free(s[i]) {
            0int
        } else {
            1int
        }) + (if var_is_free(x) {
            0int
        } else {
            1int
        }),
    decreases s.len(),
{
    if i == s.len() - 1 {
        assert(s.update(i, x).drop_last() =~= s.drop_last());
    } else {
        assert(s.update(i, x).drop_last() =~= s.drop_last().update(i, x));
        lemma_used_var_count_update(s.drop_last(), i, x);
    }
}

/// First auxiliary port of a binary agent.
pub open spec fn aux0(n: Node) -> usize {
    match n {
        Node::Con(p0, _) => p0,
        Node::Dup(p0, _) => p0,
        _ => 0,
    }
}

/// Second auxiliary port of a binary agent.
pub open spec fn aux1(n: Node) -> usize {
    match n {
        Node::Con(_, p1) => p1,
        Node::Dup(_, p1) => p1,
        _ => 0,
    }
}

/// The variable id a `Var` node carries.
pub open spec fn var_id_of(n: Node) -> usize {
    match n {
        Node::Var(v) => v,
        _ => 0,
    }
}

/// The definition id a `Ref` node carries.
pub open spec fn ref_id_of(n: Node) -> usize {
    match n {
        Node::Ref(d) => d,
        _ => 0,
    }
}

/// Annihilation of two agents with no auxiliary ports (Era–Era, and
/// Era–Ref, which must never expand the reference): both slots are freed.
pub open spec fn erase_result(v: VmView, a: usize, b: usize) -> VmView {
    sv_free(sv_free(v, a), b)
}

/// Erasure of a `Con`: the `Con` slot is freed, a fresh `Era` is
/// allocated, and the two erasers are paired with the two auxiliary
/// ports, so erasure propagates into the subtree.
pub open spec fn ec_result(v: VmView, e: usize, c: usize) -> VmView {
    let p0 = aux0(v.nodes[c as int]);
    let p1 = aux1(v.nodes[c as int]);
    let s1 = sv_free(v, c);
    let e2 = sv_alloc_idx(s1);
    let s2 = sv_alloc(s1, Node::Era);
    sv_push(sv_push(s2, e, p0), e2, p1)
}

/// Erasure of a `Dup`, exactly as for a `Con`.
pub open spec fn ed_result(v: VmView, e: usize, d: usize) -> VmView {
    let p0 = aux0(v.nodes[d as int]);
    let p1 = aux1(v.nodes[d as int]);
    let s1 = sv_free(v, d);
    let e2 = sv_alloc_idx(s1);
    let s2 = sv_alloc(s1, Node::Era);
    sv_push(sv_push(s2, e, p0), e2, p1)
}

/// Con–Con annihilation: both slots freed, auxiliary ports reconnected
/// crosswise.
pub open spec fn cc_result(v: VmView, a: usize, b: usize) -> VmView {
    let a0 = aux0(v.nodes[a as int]);
    let a1 = aux1(v.nodes[a as int]);
    let b0 = aux0(v.nodes[b as int]);
    let b1 = aux1(v.nodes[b as int]);
    sv_push(sv_push(sv_free(sv_free(v, a), b), a0, b1), a1, b0)
}

/// Dup–Dup annihilation: both slots freed, auxiliary ports reconnected
/// straight.
pub open spec fn dd_result(v: VmView, a: usize, b: usize) -> VmView {
    let a0 = aux0(v.nodes[a as int]);
    let a1 = aux1(v.nodes[a as int]);
    let b0 = aux0(v.nodes[b as int]);
    let b1 = aux1(v.nodes[b as int]);
    sv_push(sv_push(sv_free(sv_free(v, a), b), a0, b0), a1, b1)
}

/// Con–Dup commutation, the one growing rule: both agents are freed, four
/// fresh variable pairs (each a wire: one id, two `Var` placeholder
/// nodes) and four fresh agents (two `Dup` clones, two `Con` clones) are
/// allocated cross-wired over the fresh wires, and the four clones are
/// paired with the four original auxiliary ports.
pub open spec fn cd_result(v: VmView, c: usize, d: usize) -> VmView {
    let con0 = aux0(v.nodes[c as int]);
    let con1 = aux1(v.nodes[c as int]);
    let dup0 = aux0(v.nodes[d as int]);
    let dup1 = aux1(v.nodes[d as int]);
    let s0 = sv_free(sv_free(v, c), d);
    let x0 = sv_alloc_var_idx(s0);
    let t0 = sv_alloc_var(s0);
    let a0 = sv_alloc_idx(t0);
    let u0 = sv_alloc(t0, Node::Var(x0));
    let b0 = sv_alloc_idx(u0);
    let s1 = sv_alloc(u0, Node::Var(x0));
    let x1 = sv_alloc_var_idx(s1);
    let t1 = sv_alloc_var(s1);
    let a1 = sv_alloc_idx(t1);
    let u1 = sv_alloc(t1, Node::Var(x1));
    let b1 = sv_alloc_idx(u1);
    let s2 = sv_alloc(u1, Node::Var(x1));
    let x2 = sv_alloc_var_idx(s2);
    let t2 = sv_alloc_var(s2);
    let a2 = sv_alloc_idx(t2);
    let u2 = sv_alloc(t2, Node::Var(x2));
    let b2 = sv_alloc_idx(u2);
    let s3 = sv_alloc(u2, Node::Var(x2));
    let x3 = sv_alloc_var_idx(s3);
    let t3 = sv_alloc_var(s3);
    let a3 = sv_alloc_idx(t3);
    let u3 = sv_alloc(t3, Node::Var(x3));
    let b3 = sv_alloc_idx(u3);
    let s4 = sv_alloc(u3, Node::Var(x3));
    let d0 = sv_alloc_idx(s4);
    let s5 = sv_alloc(s4, Node::Dup(a1, a0));
    let d1 = sv_alloc_idx(s5);
    let s6 = sv_alloc(s5, Node::Dup(a3, a2));
    let c0 = sv_alloc_idx(s6);
    let s7 = sv_alloc(s6, Node::Con(b0, b2));
    let c1 = sv_alloc_idx(s7);
    let s8 = sv_alloc(s7, Node::Con(b1, b3));
    sv_push(sv_push(sv_push(sv_push(s8, d0, con0), d1, con1), c0, dup1), c1, dup0)
}

/// A template node carried over into the arena: ports are translated
/// through the fresh node map, variable ids through the fresh variable
/// map, so every local index becomes the corresponding global one.
pub open spec fn translate_node(n: Node, nmap: Seq<usize>, vmap: Seq<usize>) -> Node {
    match n {
        Node::Free => Node::Free,
        Node::Era => Node::Era,
        Node::Con(p0, p1) => Node::Con(nmap[p0 as int], nmap[p1 as int]),
        Node::Dup(p0, p1) => Node::Dup(nmap[p0 as int], nmap[p1 as int]),
        Node::Var(v) => Node::Var(vmap[v as int]),
        Node::Ref(d) => Node::Ref(d),
    }
}

/// Translates one template node through the two local-to-global maps.
fn translate(n: Node, nmap: &Vec<usize>, vmap: &Vec<usize>) -> (r: Node)
    requires
        template_node_wf(n, nmap@.len() as int, vmap@.len() as int),
    ensures
        r == translate_node(n, nmap@, vmap@),
{
    match n {
        Node::Free => Node::Free,
        Node::Era => Node::Era,
        Node::Con(p0, p1) => Node::Con(nmap[p0], nmap[p1]),
        Node::Dup(p0, p1) => Node::Dup(nmap[p0], nmap[p1]),
        Node::Var(v) => Node::Var(vmap[v]),
        Node::Ref(d) => Node::Ref(d),
    }
}

/// One full fresh copy of a template in the arena.  `nmap` and `vmap` are
/// the local-to-global maps: every mapped slot was free (or new) before
/// and now holds the translated template node, every mapped variable
/// starts unlinked, everything that was live before is untouched, and the
/// template's redexes are appended to the work-list, translated through
/// `nmap`.
pub open spec fn instantiated(
    pre: VmView,
    post: VmView,
    d: DescView,
    nmap: Seq<usize>,
    vmap: Seq<usize>,
) -> bool {
    &&& nmap.len() == d.nodes.len()
    &&& vmap.len() == d.n_vars
    &&& forall|j: int|
        0 <= j < nmap.len() ==> 1 <= #[trigger] nmap[j] < post.nodes.len() && (nmap[j]
            < pre.nodes.len() ==> pre.nodes[nmap[j] as int] is Free) && post.nodes[nmap[j] as int]
            == translate_node(d.nodes[j], nmap, vmap)
    &&& forall|j: int, k: int| 0 <= j < k < nmap.len() ==> nmap[j] != nmap[k]
    &&& forall|j: int|
        0 <= j < vmap.len() ==> #[trigger] vmap[j] < post.vars.len() && (vmap[j] < pre.vars.len()
            ==> var_is_free(pre.vars[vmap[j] as int])) && var_is_unlinked(
            post.vars[vmap[j] as int],
        )
    &&& forall|j: int, k: int| 0 <= j < k < vmap.len() ==> vmap[j] != vmap[k]
    &&& forall|k: int|
        0 <= k < pre.nodes.len() && (#[trigger] pre.nodes[k]).is_occupied() ==> post.nodes[k]
            == pre.nodes[k]
    &&& forall|k: int|
        0 <= k < pre.vars.len() && !var_is_free(#[trigger] pre.vars[k]) ==> post.vars[k]
            == pre.vars[k]
    &&& post.nodes.len() >= pre.nodes.len()
    &&& post.vars.len() >= pre.vars.len()
    &&& post.redexes.len() == pre.redexes.len() + d.redexes.len()
    &&& forall|k: int| 0 <= k < pre.redexes.len() ==> post.redexes[k] == pre.redexes[k]
    &&& forall|k: int|
        0 <= k < d.redexes.len() ==> post.redexes[pre.redexes.len() + k] == (
        nmap[(#[trigger] d.redexes[k]).0 as int],
        nmap[d.redexes[k].1 as int],
        )
    &&& occupied_count(post.nodes) == occupied_count(pre.nodes) + d.nodes.len()
    &&& used_var_count(post.vars) == used_var_count(pre.vars) + d.n_vars
}

/// Expansion of a `Ref` against an agent: the `Ref` slot is freed, the
/// referenced template is instantiated as a full fresh copy, and the
/// copy's output node is paired with the agent so the encounter is
/// retried against the expanded body.
pub open spec fn expand_effect(
    pre: VmView,
    post: VmView,
    node: usize,
    ref_node: usize,
    bk: BookView,
) -> bool {
    let did = ref_id_of(pre.nodes[ref_node as int]);
    let dv = bk.defs[did as int].0;
    let out = bk.defs[did as int].1;
    exists|nmap: Seq<usize>, vmap: Seq<usize>, mid: VmView|
        #[trigger] instantiated(sv_free(pre, ref_node), mid, dv, nmap, vmap) && post == sv_push(
            mid,
            nmap[out as int],
            node,
        )
}

/// The conditions the variable link/resolve rule needs of the `Var` side:
/// a valid id in a state that is not free.
pub open spec fn var_side_ok(v: VmView, var: usize) -> bool {
    let id = var_id_of(v.nodes[var as int]);
    id < v.vars.len() && !var_is_free(v.vars[id as int])
}

/// The conditions expansion needs of a `Ref` slot: the definition id is
/// reserved and filled, its template is well formed and its output index
/// names a template node.
pub open spec fn expand_ok(v: VmView, ref_node: usize, bk: BookView) -> bool {
    let did = ref_id_of(v.nodes[ref_node as int]);
    &&& did < bk.defs.len()
    &&& bk.filled.contains(did as int)
    &&& desc_wf(bk.defs[did as int].0)
    &&& bk.defs[did as int].1 < bk.defs[did as int].0.nodes.len()
}

/// What one call of `step` is allowed to find on top of the work-list:
/// both sides occupied (never the sentinel), same-kind annihilations on
/// two distinct slots, link/resolve on a live variable, and expansion
/// only of a filled, well-formed definition.  A redex that violates this
/// marks a malformed template or a scheduler bug and is excluded outright.
pub open spec fn step_req(v: VmView, bk: BookView) -> bool {
    v.redexes.len() == 0 || {
        let a = v.redexes.last().0;
        let b = v.redexes.last().1;
        &&& a < v.nodes.len()
        &&& b < v.nodes.len()
        &&& v.nodes[a as int].is_occupied()
        &&& v.nodes[b as int].is_occupied()
        &&& match v.nodes[a as int] {
            Node::Free => false,
            Node::Era => match v.nodes[b as int] {
                Node::Free => false,
                Node::Era => a != b,
                Node::Con(_, _) => true,
                Node::Dup(_, _) => true,
                Node::Var(_) => var_side_ok(v, b),
                Node::Ref(_) => true,
            },
            Node::Con(_, _) => match v.nodes[b as int] {
                Node::Free => false,
                Node::Era => true,
                Node::Con(_, _) => a != b,
                Node::Dup(_, _) => true,
                Node::Var(_) => var_side_ok(v, b),
                Node::Ref(_) => expand_ok(v, b, bk),
            },
            Node::Dup(_, _) => match v.nodes[b as int] {
                Node::Free => false,
                Node::Era => true,
                Node::Con(_, _) => true,
                Node::Dup(_, _) => a != b,
                Node::Var(_) => var_side_ok(v, b),
                Node::Ref(_) => expand_ok(v, b, bk),
            },
            Node::Var(_) => var_side_ok(v, a),
            Node::Ref(_) => match v.nodes[b as int] {
                Node::Free => false,
                Node::Era => true,
                Node::Var(_) => var_side_ok(v, b),
                Node::Con(_, _) => expand_ok(v, a, bk),
                Node::Dup(_, _) => expand_ok(v, a, bk),
                Node::Ref(_) => expand_ok(v, a, bk),
            },
        }
    }
}

/// What one call of `step` does: nothing on an empty work-list, else it
/// pops the top pair and applies the one interaction rule selected by the
/// unordered pair of node kinds, `Var` always taking the linking rule
/// with the other side as node operand.
pub open spec fn step_effect(pre: VmView, post: VmView, bk: BookView) -> bool {
    if pre.redexes.len() == 0 {
        post == pre
    } else {
        let a = pre.redexes.last().0;
        let b = pre.redexes.last().1;
        let s = VmView { redexes: pre.redexes.drop_last(), ..pre };
        match s.nodes[a as int] {
            Node::Free => false,
            Node::Era => match s.nodes[b as int] {
                Node::Free => false,
                Node::Era => post == erase_result(s, a, b),
                Node::Con(_, _) => post == ec_result(s, a, b),
                Node::Dup(_, _) => post == ed_result(s, a, b),
                Node::Var(_) => post == var_result(s, a, b),
                Node::Ref(_) => post == erase_result(s, a, b),
            },
            Node::Con(_, _) => match s.nodes[b as int] {
                Node::Free => false,
                Node::Era => post == ec_result(s, b, a),
                Node::Con(_, _) => post == cc_result(s, a, b),
                Node::Dup(_, _) => post == cd_result(s, a, b),
                Node::Var(_) => post == var_result(s, a, b),
                Node::Ref(_) => expand_effect(s, post, a, b, bk),
            },
            Node::Dup(_, _) => match s.nodes[b as int] {
                Node::Free => false,
                Node::Era => post == ed_result(s, b, a),
                Node::Con(_, _) => post == cd_result(s, b, a),
                Node::Dup(_, _) => post == dd_result(s, a, b),
                Node::Var(_) => post == var_result(s, a, b),
                Node::Ref(_) => expand_effect(s, post, a, b, bk),
            },
            Node::Var(_) => post == var_result(s, b, a),
            Node::Ref(_) => match s.nodes[b as int] {
                Node::Free => false,
                Node::Era => post == erase_result(s, a, b),
                Node::Var(_) => post == var_result(s, a, b),
                Node::Con(_, _) => expand_effect(s, post, b, a, bk),
                Node::Dup(_, _) => expand_effect(s, post, b, a, bk),
                Node::Ref(_) => expand_effect(s, post, b, a, bk),
            },
        }
    }
}

/// Variable link/resolve, `node` being the non-`Var` redex side.  An
/// unlinked variable records `node` as its target and consumes the `Var`
/// placeholder; a linked one pairs `node` with the stored target, consumes
/// the placeholder and returns the id to the free pool.
pub open spec fn var_result(v: VmView, node: usize, var: usize) -> VmView {
    let id = var_id_of(v.nodes[var as int]);
    if var_is_unlinked(v.vars[id as int]) {
        sv_free(VmView { vars: v.vars.update(id as int, node), ..v }, var)
    } else {
        sv_free_var(sv_free(sv_push(v, node, v.vars[id as int]), var), id)
    }
}

/// The reduction engine: a runtime arena of nodes and variables with free
/// lists, a LIFO redex work-list, and a read-only reference to the
/// definitions table for the engine's lifetime.
pub struct NetVM<'a> {
    pub nodes: Vec<Node>,
    pub vars: Vec<usize>,
    pub free_nodes: Vec<usize>,
    pub free_vars: Vec<usize>,
    pub redex_stack: Vec<(usize, usize)>,
    pub book: &'a Book,
}

impl<'a> View for NetVM<'a> {
    type V = VmView;

    open spec fn view(&self) -> VmView {
        VmView {
            nodes: self.nodes@,
            vars: self.vars@,
            free_nodes: self.free_nodes@,
            free_vars: self.free_vars@,
            redexes: self.redex_stack@,
        }
    }
}

impl<'a> NetVM<'a> {
    /// A fresh engine over a definitions table: slot 0 is reserved as the
    /// non-node, everything else is empty.
    pub fn new(book: &'a Book) -> (vm: NetVM<'a>)
        ensures
            vm@.nodes == seq![Node::Free],
            vm@.vars == Seq::<usize>::empty(),
            vm@.free_nodes == Seq::<usize>::empty(),
            vm@.free_vars == Seq::<usize>::empty(),
            vm@.redexes == Seq::<(usize, usize)>::empty(),
            vm.book == book,
            vm_inv(vm@),
    {
        let mut nodes: Vec<Node> = Vec::new();
        nodes.push(Node::Free);
        proof {
            assert(nodes@ =~= seq![Node::Free]);
        }
        NetVM {
            nodes,
            vars: Vec::new(),
            free_nodes: Vec::new(),
            free_vars: Vec::new(),
            redex_stack: Vec::new(),
            book,
        }
    }

    /// Whether the work-list is empty: the graph is in normal form.
    pub fn is_done(&self) -> (r: bool)
        ensures
            r == (self@.redexes.len() == 0),
    {
        self.redex_stack.is_empty()
    }

    /// Takes a slot from the free stack, or grows the arena by one, and
    /// writes the node there.
    pub fn alloc_node(&mut self, node: Node) -> (idx: usize)
        requires
            vm_inv(old(self)@),
            node.is_occupied(),
        ensures
            vm_inv(final(self)@),
            final(self)@ == sv_alloc(old(self)@, node),
            idx == sv_alloc_idx(old(self)@),
            1 <= idx < final(self)@.nodes.len(),
            idx < old(self)@.nodes.len() ==> old(self)@.nodes[idx as int] is Free,
            final(self)@.nodes[idx as int] == node,
            final(self)@.nodes.len() >= old(self)@.nodes.len(),
            forall|k: int|
                0 <= k < old(self)@.nodes.len() && k != idx ==> final(self)@.nodes[k] == old(
                    self,
                )@.nodes[k],
            occupied_count(final(self)@.nodes) == occupied_count(old(self)@.nodes) + 1,
            agent_count(final(self)@.nodes) == agent_count(old(self)@.nodes) + if node.is_agent() {
                1int
            } else {
                0int
            },
            final(self)@.vars == old(self)@.vars,
            final(self)@.free_vars == old(self)@.free_vars,
            final(self)@.redexes == old(self)@.redexes,
            final(self).book == old(self).book,
    {
        proof {
            if old(self)@.free_nodes.len() > 0 {
                let i = old(self)@.free_nodes.last() as int;
                lemma_occupied_count_update(old(self)@.nodes, i, node);
                lemma_agent_count_update(old(self)@.nodes, i, node);
            } else {
                lemma_occupied_count_push(old(self)@.nodes, node);
                lemma_agent_count_push(old(self)@.nodes, node);
            }
        }
        if let Some(idx) = self.free_nodes.pop() {
            self.nodes.set(idx, node);
            proof {
                assert(self@ =~= sv_alloc(old(self)@, node));
            }
            idx
        } else {
            self.nodes.push(node);
            proof {
                assert(self@ =~= sv_alloc(old(self)@, node));
            }
            self.nodes.len() - 1
        }
    }

    /// Marks an occupied slot `Free` and returns it to the free stack.
    /// Freeing a slot that is already free is an invariant violation and
    /// is excluded outright.
    pub fn free_node(&mut self, node: usize)
        requires
            vm_inv(old(self)@),
            node < old(self)@.nodes.len(),
            old(self)@.nodes[node as int].is_occupied(),
        ensures
            vm_inv(final(self)@),
            final(self)@ == sv_free(old(self)@, node),
            occupied_count(final(self)@.nodes) == occupied_count(old(self)@.nodes) - 1,
            agent_count(final(self)@.nodes) == agent_count(old(self)@.nodes) - if old(
                self,
            )@.nodes[node as int].is_agent() {
                1int
            } else {
                0int
            },
            final(self)@.vars == old(self)@.vars,
            final(self)@.free_vars == old(self)@.free_vars,
            final(self)@.redexes == old(self)@.redexes,
            final(self).book == old(self).book,
    {
        proof {
            lemma_occupied_count_update(old(self)@.nodes, node as int, Node::Free);
            lemma_agent_count_update(old(self)@.nodes, node as int, Node::Free);
        }
        self.nodes.set(node, Node::Free);
        self.free_nodes.push(node);
        proof {
            assert(self@ =~= sv_free(old(self)@, node));
        }
    }

    /// Takes a variable slot from the free pool, or grows the variable
    /// array by one; the slot starts in the unlinked state.
    pub fn alloc_var(&mut self) -> (v: usize)
        requires
            vm_inv(old(self)@),
        ensures
            vm_inv(final(self)@),
            final(self)@ == sv_alloc_var(old(self)@),
            v == sv_alloc_var_idx(old(self)@),
            v < final(self)@.vars.len(),
            var_is_unlinked(final(self)@.vars[v as int]),
            v < old(self)@.vars.len() ==> var_is_free(old(self)@.vars[v as int]),
            final(self)@.vars.len() >= old(self)@.vars.len(),
            forall|k: int|
                0 <= k < old(self)@.vars.len() && k != v ==> final(self)@.vars[k] == old(
                    self,
                )@.vars[k],
            used_var_count(final(self)@.vars) == used_var_count(old(self)@.vars) + 1,
            final(self)@.nodes == old(self)@.nodes,
            final(self)@.free_nodes == old(self)@.free_nodes,
            final(self)@.redexes == old(self)@.redexes,
            final(self).book == old(self).book,
    {
        proof {
            if old(self)@.free_vars.len() > 0 {
                lemma_used_var_count_update(
                    old(self)@.vars,
                    old(self)@.free_vars.last() as int,
                    usize::MAX,
                );
            } else {
                lemma_used_var_count_push(old(self)@.vars, usize::MAX);
            }
        }
        if let Some(idx) = self.free_vars.pop() {
            self.vars.set(idx, usize::MAX);
            proof {
                assert(self@ =~= sv_alloc_var(old(self)@));
            }
            idx
        } else {
            self.vars.push(usize::MAX);
            proof {
                assert(self@ =~= sv_alloc_var(old(self)@));
            }
            self.vars.len() - 1
        }
    }

    /// Returns a variable slot to the free pool.  Only a slot that is in
    /// use may be freed; freeing twice is an invariant violation.
    pub fn free_var(&mut self, var: usize)
        requires
            vm_inv(old(self)@),
            var < old(self)@.vars.len(),
            !var_is_free(old(self)@.vars[var as int]),
        ensures
            vm_inv(final(self)@),
            final(self)@ == sv_free_var(old(self)@, var),
            used_var_count(final(self)@.vars) == used_var_count(old(self)@.vars) - 1,
            final(self)@.nodes == old(self)@.nodes,
            final(self)@.free_nodes == old(self)@.free_nodes,
            final(self)@.redexes == old(self)@.redexes,
            final(self).book == old(self).book,
    {
        proof {
            lemma_used_var_count_update(old(self)@.vars, var as int, 0);
        }
        self.vars.set(var, 0);
        self.free_vars.push(var);
        proof {
            assert(self@ =~= sv_free_var(old(self)@, var));
        }
    }

    /// Pushes one pair of node indices on the work-list.
    pub fn add_redex(&mut self, a: usize, b: usize)
        ensures
            final(self)@ == sv_push(old(self)@, a, b),
            final(self).book == old(self).book,
    {
        self.redex_stack.push((a, b));
        proof {
            assert(self@ =~= sv_push(old(self)@, a, b));
        }
    }

    /// Annihilates two agents that have no auxiliary ports.  For Era–Ref
    /// this frees both slots without ever instantiating the referenced
    /// definition: the arena and variable state are otherwise untouched.
    pub fn interact_erase(&mut self, a: usize, b: usize)
        requires
            vm_inv(old(self)@),
            a < old(self)@.nodes.len(),
            b < old(self)@.nodes.len(),
            a != b,
            old(self)@.nodes[a as int].is_occupied(),
            old(self)@.nodes[b as int].is_occupied(),
        ensures
            vm_inv(final(self)@),
            final(self)@ == erase_result(old(self)@, a, b),
            occupied_count(final(self)@.nodes) == occupied_count(old(self)@.nodes) - 2,
            final(self)@.nodes.len() == old(self)@.nodes.len(),
            final(self)@.vars == old(self)@.vars,
            final(self)@.free_vars == old(self)@.free_vars,
            final(self)@.redexes == old(self)@.redexes,
            final(self).book == old(self).book,
    {
        self.free_node(a);
        self.free_node(b);
    }

    /// Era–Con: erasure propagates into the `Con`'s subtree.
    pub fn interact_ec(&mut self, e: usize, c: usize)
        requires
            vm_inv(old(self)@),
            c < old(self)@.nodes.len(),
            old(self)@.nodes[c as int] is Con,
        ensures
            vm_inv(final(self)@),
            final(self)@ == ec_result(old(self)@, e, c),
            occupied_count(final(self)@.nodes) == occupied_count(old(self)@.nodes),
            final(self)@.vars == old(self)@.vars,
            final(self)@.free_vars == old(self)@.free_vars,
            final(self).book == old(self).book,
    {
        let (con_a, con_b) = match self.nodes[c] {
            Node::Con(p0, p1) => (p0, p1),
            _ => vstd::pervasive::unreached(),
        };
        self.free_node(c);
        let new_e = self.alloc_node(Node::Era);
        self.add_redex(e, con_a);
        self.add_redex(new_e, con_b);
    }

    /// Era–Dup: erasure propagates into the `Dup`'s subtree.
    pub fn interact_ed(&mut self, e: usize, d: usize)
        requires
            vm_inv(old(self)@),
            d < old(self)@.nodes.len(),
            old(self)@.nodes[d as int] is Dup,
        ensures
            vm_inv(final(self)@),
            final(self)@ == ed_result(old(self)@, e, d),
            occupied_count(final(self)@.nodes) == occupied_count(old(self)@.nodes),
            final(self)@.vars == old(self)@.vars,
            final(self)@.free_vars == old(self)@.free_vars,
            final(self).book == old(self).book,
    {
        let (dup_a, dup_b) = match self.nodes[d] {
            Node::Dup(p0, p1) => (p0, p1),
            _ => vstd::pervasive::unreached(),
        };
        self.free_node(d);
        let new_e = self.alloc_node(Node::Era);
        self.add_redex(e, dup_a);
        self.add_redex(new_e, dup_b);
    }

    /// Con–Con annihilation: the live node count drops by exactly 2 and
    /// no variable slot changes — conservation under annihilation.
    pub fn interact_cc(&mut self, a: usize, b: usize)
        requires
            vm_inv(old(self)@),
            a < old(self)@.nodes.len(),
            b < old(self)@.nodes.len(),
            a != b,
            old(self)@.nodes[a as int] is Con,
            old(self)@.nodes[b as int] is Con,
        ensures
            vm_inv(final(self)@),
            final(self)@ == cc_result(old(self)@, a, b),
            occupied_count(final(self)@.nodes) == occupied_count(old(self)@.nodes) - 2,
            agent_count(final(self)@.nodes) == agent_count(old(self)@.nodes) - 2,
            final(self)@.vars == old(self)@.vars,
            final(self)@.free_vars == old(self)@.free_vars,
            final(self).book == old(self).book,
    {
        let (a0, a1) = match self.nodes[a] {
            Node::Con(p0, p1) => (p0, p1),
            _ => vstd::pervasive::unreached(),
        };
        let (b0, b1) = match self.nodes[b] {
            Node::Con(p0, p1) => (p0, p1),
            _ => vstd::pervasive::unreached(),
        };
        self.free_node(a);
        self.free_node(b);
        self.add_redex(a0, b1);
        self.add_redex(a1, b0);
    }

    /// Dup–Dup annihilation: as Con–Con, with the ports reconnected
    /// straight instead of crosswise.
    pub fn interact_dd(&mut self, a: usize, b: usize)
        requires
            vm_inv(old(self)@),
            a < old(self)@.nodes.len(),
            b < old(self)@.nodes.len(),
            a != b,
            old(self)@.nodes[a as int] is Dup,
            old(self)@.nodes[b as int] is Dup,
        ensures
            vm_inv(final(self)@),
            final(self)@ == dd_result(old(self)@, a, b),
            occupied_count(final(self)@.nodes) == occupied_count(old(self)@.nodes) - 2,
            agent_count(final(self)@.nodes) == agent_count(old(self)@.nodes) - 2,
            final(self)@.vars == old(self)@.vars,
            final(self)@.free_vars == old(self)@.free_vars,
            final(self).book == old(self).book,
    {
        let (a0, a1) = match self.nodes[a] {
            Node::Dup(p0, p1) => (p0, p1),
            _ => vstd::pervasive::unreached(),
        };
        let (b0, b1) = match self.nodes[b] {
            Node::Dup(p0, p1) => (p0, p1),
            _ => vstd::pervasive::unreached(),
        };
        self.free_node(a);
        self.free_node(b);
        self.add_redex(a0, b0);
        self.add_redex(a1, b1);
    }

    /// Con–Dup commutation, the only rule that grows the arena: the two
    /// agents are consumed and exactly four new agents (two `Dup` clones,
    /// two `Con` clones) and four new variable ids come into use.
    #[verifier::rlimit(100)]
    pub fn interact_cd(&mut self, c: usize, d: usize)
        requires
            vm_inv(old(self)@),
            c < old(self)@.nodes.len(),
            d < old(self)@.nodes.len(),
            old(self)@.nodes[c as int] is Con,
            old(self)@.nodes[d as int] is Dup,
        ensures
            vm_inv(final(self)@),
            final(self)@ == cd_result(old(self)@, c, d),
            agent_count(final(self)@.nodes) == agent_count(old(self)@.nodes) + 2,
            used_var_count(final(self)@.vars) == used_var_count(old(self)@.vars) + 4,
            occupied_count(final(self)@.nodes) == occupied_count(old(self)@.nodes) + 10,
            final(self).book == old(self).book,
    {
        let (con_0, con_1) = match self.nodes[c] {
            Node::Con(p0, p1) => (p0, p1),
            _ => vstd::pervasive::unreached(),
        };
        let (dup_0, dup_1) = match self.nodes[d] {
            Node::Dup(p0, p1) => (p0, p1),
            _ => vstd::pervasive::unreached(),
        };
        self.free_node(c);
        self.free_node(d);

        let x0 = self.alloc_var();
        let a0 = self.alloc_node(Node::Var(x0));
        let b0 = self.alloc_node(Node::Var(x0));

        let x1 = self.alloc_var();
        let a1 = self.alloc_node(Node::Var(x1));
        let b1 = self.alloc_node(Node::Var(x1));

        let x2 = self.alloc_var();
        let a2 = self.alloc_node(Node::Var(x2));
        let b2 = self.alloc_node(Node::Var(x2));

        let x3 = self.alloc_var();
        let a3 = self.alloc_node(Node::Var(x3));
        let b3 = self.alloc_node(Node::Var(x3));

        let d0 = self.alloc_node(Node::Dup(a1, a0));
        let d1 = self.alloc_node(Node::Dup(a3, a2));
        let c0 = self.alloc_node(Node::Con(b0, b2));
        let c1 = self.alloc_node(Node::Con(b1, b3));

        self.add_redex(d0, con_0);
        self.add_redex(d1, con_1);
        self.add_redex(c0, dup_1);
        self.add_redex(c1, dup_0);
    }

    /// Variable link/resolve: `node` is the non-`Var` side of the redex.
    /// First encounter links the id to `node`; the second pushes the
    /// direct redex between the two recorded endpoints and returns the id
    /// to the free pool.
    pub fn interact_var(&mut self, node: usize, var: usize)
        requires
            vm_inv(old(self)@),
            var < old(self)@.nodes.len(),
            old(self)@.nodes[var as int] is Var,
            var_id_of(old(self)@.nodes[var as int]) < old(self)@.vars.len(),
            !var_is_free(old(self)@.vars[var_id_of(old(self)@.nodes[var as int]) as int]),
            1 <= node < old(self)@.nodes.len(),
        ensures
            vm_inv(final(self)@),
            final(self)@ == var_result(old(self)@, node, var),
            occupied_count(final(self)@.nodes) == occupied_count(old(self)@.nodes) - 1,
            var_is_unlinked(old(self)@.vars[var_id_of(old(self)@.nodes[var as int]) as int])
                ==> var_is_linked(
                final(self)@.vars[var_id_of(old(self)@.nodes[var as int]) as int],
            ) && used_var_count(final(self)@.vars) == used_var_count(old(self)@.vars),
            !var_is_unlinked(old(self)@.vars[var_id_of(old(self)@.nodes[var as int]) as int])
                ==> used_var_count(final(self)@.vars) == used_var_count(old(self)@.vars) - 1,
            final(self).book == old(self).book,
    {
        let var_idx = match self.nodes[var] {
            Node::Var(v) => v,
            _ => vstd::pervasive::unreached(),
        };
        proof {
            vstd::std_specs::vec::axiom_spec_len(&self.nodes);
        }
        if self.vars[var_idx] == usize::MAX {
            // First endpoint: record the target, consume the placeholder.
            self.vars.set(var_idx, node);
            proof {
                assert forall|i: int| 0 <= i < self@.free_vars.len() implies #[trigger] self@.free_vars[i]
                    < self@.vars.len() && var_is_free(self@.vars[self@.free_vars[i] as int]) by {
                    assert(var_is_free(old(self)@.vars[old(self)@.free_vars[i] as int]));
                }
                assert(vm_inv(self@));
                lemma_used_var_count_update(old(self)@.vars, var_idx as int, node);
            }
            self.free_node(var);
        } else {
            // Second endpoint: the wire resolves into a direct redex.
            let target = self.vars[var_idx];
            self.add_redex(node, target);
            self.free_node(var);
            self.free_var(var_idx);
        }
    }

    /// Copies one template into the arena: one fresh variable slot per
    /// template variable pair, one fresh node slot per template node with
    /// every local index translated to its global counterpart, and every
    /// stored redex translated and pushed.  Returns the two
    /// local-to-global maps.
    fn add_desc(&mut self, desc: &NetDesc) -> (maps: (Vec<usize>, Vec<usize>))
        requires
            vm_inv(old(self)@),
            desc_wf(desc@),
        ensures
            vm_inv(final(self)@),
            instantiated(old(self)@, final(self)@, desc@, maps.0@, maps.1@),
            final(self).book == old(self).book,
    {
        let mut var_idx_map: Vec<usize> = Vec::new();
        let mut i: usize = 0;
        while i < desc.n_vars
            invariant
                vm_inv(self@),
                i <= desc@.n_vars,
                var_idx_map@.len() == i as nat,
                self@.nodes == old(self)@.nodes,
                self@.free_nodes == old(self)@.free_nodes,
                self@.redexes == old(self)@.redexes,
                self.book == old(self).book,
                self@.vars.len() >= old(self)@.vars.len(),
                used_var_count(self@.vars) == used_var_count(old(self)@.vars) + i,
                forall|j: int|
                    0 <= j < i ==> #[trigger] var_idx_map@[j] < self@.vars.len()
                        && var_is_unlinked(self@.vars[var_idx_map@[j] as int]) && (var_idx_map@[j]
                        < old(self)@.vars.len() ==> var_is_free(
                        old(self)@.vars[var_idx_map@[j] as int],
                    )),
                forall|j: int, k: int| 0 <= j < k < i ==> var_idx_map@[j] != var_idx_map@[k],
                forall|id: int|
                    0 <= id < old(self)@.vars.len() && !var_is_free(#[trigger] old(self)@.vars[id])
                        ==> self@.vars[id] == old(self)@.vars[id],
            decreases desc@.n_vars - i,
        {
            let v = self.alloc_var();
            var_idx_map.push(v);
            i = i + 1;
        }
        let ghost m1 = self@;

        let mut node_idx_map: Vec<usize> = Vec::new();
        let mut i: usize = 0;
        while i < desc.nodes.len()
            invariant
                vm_inv(self@),
                i <= desc@.nodes.len(),
                node_idx_map@.len() == i as nat,
                self@.vars == m1.vars,
                self@.free_vars == m1.free_vars,
                self@.redexes == m1.redexes,
                self.book == old(self).book,
                self@.nodes.len() >= m1.nodes.len(),
                m1.nodes == old(self)@.nodes,
                occupied_count(self@.nodes) == occupied_count(old(self)@.nodes) + i,
                forall|j: int|
                    0 <= j < i ==> 1 <= #[trigger] node_idx_map@[j] < self@.nodes.len()
                        && self@.nodes[node_idx_map@[j] as int] == Node::Era && (node_idx_map@[j]
                        < old(self)@.nodes.len() ==> old(self)@.nodes[node_idx_map@[j] as int]
                        is Free),
                forall|j: int, k: int| 0 <= j < k < i ==> node_idx_map@[j] != node_idx_map@[k],
                forall|k: int|
                    0 <= k < old(self)@.nodes.len() && (#[trigger] old(
                        self,
                    )@.nodes[k]).is_occupied() ==> self@.nodes[k] == old(self)@.nodes[k],
            decreases desc@.nodes.len() - i,
        {
            let idx = self.alloc_node(Node::Era);
            node_idx_map.push(idx);
            i = i + 1;
        }
        let ghost m2 = self@;

        let mut i: usize = 0;
        while i < desc.nodes.len()
            invariant
                vm_inv(self@),
                i <= desc@.nodes.len(),
                desc_wf(desc@),
                node_idx_map@.len() == desc@.nodes.len(),
                var_idx_map@.len() == desc@.n_vars,
                self@.vars == m2.vars,
                self@.free_vars == m2.free_vars,
                self@.free_nodes == m2.free_nodes,
                self@.redexes == m2.redexes,
                self@.nodes.len() == m2.nodes.len(),
                self@.nodes.len() >= old(self)@.nodes.len(),
                self.book == old(self).book,
                occupied_count(self@.nodes) == occupied_count(m2.nodes),
                forall|j: int|
                    0 <= j < desc@.nodes.len() ==> 1 <= #[trigger] node_idx_map@[j]
                        < self@.nodes.len() && (node_idx_map@[j] < old(self)@.nodes.len() ==> old(
                        self,
                    )@.nodes[node_idx_map@[j] as int] is Free),
                forall|j: int, k: int|
                    0 <= j < k < desc@.nodes.len() ==> node_idx_map@[j] != node_idx_map@[k],
                forall|j: int|
                    0 <= j < i ==> self@.nodes[#[trigger] node_idx_map@[j] as int]
                        == translate_node(desc@.nodes[j], node_idx_map@, var_idx_map@),
                forall|j: int|
                    i <= j < desc@.nodes.len() ==> self@.nodes[#[trigger] node_idx_map@[j] as int]
                        == Node::Era,
                forall|k: int|
                    0 <= k < old(self)@.nodes.len() && (#[trigger] old(
                        self,
                    )@.nodes[k]).is_occupied() ==> self@.nodes[k] == old(self)@.nodes[k],
            decreases desc@.nodes.len() - i,
        {
            let t = translate(desc.nodes[i], &node_idx_map, &var_idx_map);
            let slot = node_idx_map[i];
            proof {
                assert(self@.nodes[slot as int] == Node::Era);
                assert(t.is_occupied());
                assert(slot < old(self)@.nodes.len() ==> old(self)@.nodes[slot as int] is Free);
                lemma_occupied_count_update(self@.nodes, slot as int, t);
            }
            let ghost pre_iter = self@;
            self.nodes.set(slot, t);
            proof {
                assert forall|k: int| 0 <= k < self@.free_nodes.len() implies 1
                    <= #[trigger] self@.free_nodes[k] && self@.free_nodes[k] < self@.nodes.len()
                    && self@.nodes[self@.free_nodes[k] as int] is Free by {
                    assert(pre_iter.nodes[pre_iter.free_nodes[k] as int] is Free);
                    assert(pre_iter.free_nodes[k] != slot);
                }
                assert forall|k: int|
                    0 <= k < old(self)@.nodes.len() && (#[trigger] old(
                        self,
                    )@.nodes[k]).is_occupied() implies self@.nodes[k] == old(self)@.nodes[k] by {
                    assert(pre_iter.nodes[k] == old(self)@.nodes[k]);
                    assert(k != slot);
                }
            }
            i = i + 1;
        }
        let ghost m3 = self@;

        let mut i: usize = 0;
        while i < desc.redexes.len()
            invariant
                i <= desc@.redexes.len(),
                desc_wf(desc@),
                node_idx_map@.len() == desc@.nodes.len(),
                self@.nodes == m3.nodes,
                self@.vars == m3.vars,
                self@.free_nodes == m3.free_nodes,
                self@.free_vars == m3.free_vars,
                self.book == old(self).book,
                m3.redexes == old(self)@.redexes,
                self@.redexes.len() == old(self)@.redexes.len() + i,
                forall|k: int|
                    0 <= k < old(self)@.redexes.len() ==> self@.redexes[k] == old(
                        self,
                    )@.redexes[k],
                forall|k: int|
                    0 <= k < i ==> self@.redexes[old(self)@.redexes.len() + k] == (
                    node_idx_map@[(#[trigger] desc@.redexes[k]).0 as int],
                    node_idx_map@[desc@.redexes[k].1 as int],
                    ),
            decreases desc@.redexes.len() - i,
        {
            let (ra, rb) = desc.redexes[i];
            let ga = node_idx_map[ra];
            let gb = node_idx_map[rb];
            self.add_redex(ga, gb);
            i = i + 1;
        }

        proof {
            assert(vm_inv(self@));
            assert(instantiated(old(self)@, self@, desc@, node_idx_map@, var_idx_map@));
        }
        (node_idx_map, var_idx_map)
    }

    /// Loads the program's entry template: instantiates it, allocates one
    /// externally observable variable, wires that variable as a redex
    /// partner of the template's declared output node, and returns the
    /// variable id as the caller's handle to the eventual result.
    pub fn load_main_desc(&mut self, desc: &NetDesc, out_node: usize) -> (var: usize)
        requires
            vm_inv(old(self)@),
            desc_wf(desc@),
            out_node < desc@.nodes.len(),
        ensures
            vm_inv(final(self)@),
            final(self).book == old(self).book,
            var < final(self)@.vars.len(),
            var_is_unlinked(final(self)@.vars[var as int]),
            exists|nmap: Seq<usize>, vmap: Seq<usize>, s1: VmView|
                #[trigger] instantiated(old(self)@, s1, desc@, nmap, vmap) && var
                    == sv_alloc_var_idx(s1) && final(self)@ == sv_push(
                    sv_alloc(sv_alloc_var(s1), Node::Var(var)),
                    sv_alloc_idx(sv_alloc_var(s1)),
                    nmap[out_node as int],
                ),
    {
        let maps = self.add_desc(desc);
        let node_idx_map = maps.0;
        let ghost s1 = self@;
        let var = self.alloc_var();
        let var_node = self.alloc_node(Node::Var(var));
        let out_global = node_idx_map[out_node];
        self.add_redex(var_node, out_global);
        proof {
            assert(instantiated(old(self)@, s1, desc@, node_idx_map@, maps.1@));
            assert(self@ == sv_push(
                sv_alloc(sv_alloc_var(s1), Node::Var(var)),
                sv_alloc_idx(sv_alloc_var(s1)),
                node_idx_map@[out_node as int],
            ));
        }
        var
    }

    /// Ref expansion: frees the `Ref` slot, instantiates the referenced
    /// definition as a full fresh copy, and pairs the copy's output with
    /// the other redex side.  Expansion happens only here; erasing an
    /// unused `Ref` never reaches this rule.
    pub fn interact_ref(&mut self, node: usize, ref_node: usize)
        requires
            vm_inv(old(self)@),
            ref_node < old(self)@.nodes.len(),
            old(self)@.nodes[ref_node as int] is Ref,
            ref_id_of(old(self)@.nodes[ref_node as int]) < old(self).book@.defs.len(),
            old(self).book@.filled.contains(ref_id_of(old(self)@.nodes[ref_node as int]) as int),
            desc_wf(old(self).book@.defs[ref_id_of(old(self)@.nodes[ref_node as int]) as int].0),
            old(self).book@.defs[ref_id_of(old(self)@.nodes[ref_node as int]) as int].1 < old(
                self,
            ).book@.defs[ref_id_of(old(self)@.nodes[ref_node as int]) as int].0.nodes.len(),
        ensures
            vm_inv(final(self)@),
            final(self).book == old(self).book,
            expand_effect(old(self)@, final(self)@, node, ref_node, old(self).book@),
    {
        let desc_idx = match self.nodes[ref_node] {
            Node::Ref(d) => d,
            _ => vstd::pervasive::unreached(),
        };
        self.free_node(ref_node);
        let book: &'a Book = self.book;
        let looked_up = book.get(desc_idx);
        let desc: &'a NetDesc = looked_up.0;
        let out_idx = looked_up.1;
        let ghost after_free = self@;
        let maps = self.add_desc(desc);
        let ghost mid = self@;
        let out_global = maps.0[out_idx];
        self.add_redex(out_global, node);
        proof {
            assert(after_free == sv_free(old(self)@, ref_node));
            assert(instantiated(sv_free(old(self)@, ref_node), mid, desc@, maps.0@, maps.1@));
            assert(self@ == sv_push(mid, maps.0@[out_idx as int], node));
        }
    }

    /// One reduction step: a no-op on an empty work-list, otherwise pops
    /// one redex and dispatches on the unordered pair of node kinds to
    /// the matching interaction rule.
    pub fn step(&mut self)
        requires
            vm_inv(old(self)@),
            step_req(old(self)@, old(self).book@),
        ensures
            vm_inv(final(self)@),
            final(self).book == old(self).book,
            step_effect(old(self)@, final(self)@, old(self).book@),
    {
        let popped = self.redex_stack.pop();
        let (a, b) = match popped {
            Some(p) => p,
            None => {
                proof {
                    assert(self@ =~= old(self)@);
                }
                return ;
            },
        };
        proof {
            assert(self@ =~= VmView { redexes: old(self)@.redexes.drop_last(), ..old(self)@ });
        }

        match self.nodes[a] {
            Node::Era => {
                match self.nodes[b] {
                    Node::Free => {},
                    Node::Era => self.interact_erase(a, b),
                    Node::Con(_, _) => self.interact_ec(a, b),
                    Node::Dup(_, _) => self.interact_ed(a, b),
                    Node::Var(_) => self.interact_var(a, b),
                    Node::Ref(_) => self.interact_erase(a, b),
                }
            },
            Node::Con(_, _) => {
                match self.nodes[b] {
                    Node::Free => {},
                    Node::Era => self.interact_ec(b, a),
                    Node::Con(_, _) => self.interact_cc(a, b),
                    Node::Dup(_, _) => self.interact_cd(a, b),
                    Node::Var(_) => self.interact_var(a, b),
                    Node::Ref(_) => self.interact_ref(a, b),
                }
            },
            Node::Dup(_, _) => {
                match self.nodes[b] {
                    Node::Free => {},
                    Node::Era => self.interact_ed(b, a),
                    Node::Con(_, _) => self.interact_cd(b, a),
                    Node::Dup(_, _) => self.interact_dd(a, b),
                    Node::Var(_) => self.interact_var(a, b),
                    Node::Ref(_) => self.interact_ref(a, b),
                }
            },
            Node::Var(_) => self.interact_var(b, a),
            Node::Ref(_) => {
                match self.nodes[b] {
                    Node::Free => {},
                    Node::Era => self.interact_erase(a, b),
                    Node::Var(_) => self.interact_var(a, b),
                    Node::Con(_, _) => self.interact_ref(b, a),
                    Node::Dup(_, _) => self.interact_ref(b, a),
                    Node::Ref(_) => self.interact_ref(b, a),
                }
            },
            Node::Free => {},
        }
    }

    /// The node a slot holds.
    pub fn node_at(&self, idx: usize) -> (n: Node)
        requires
            idx < self@.nodes.len(),
        ensures
            n == self@.nodes[idx as int],
    {
        self.nodes[idx]
    }

    /// The raw state word of a variable slot: 0 free, `usize::MAX`
    /// unlinked, anything else the linked target node index.
    pub fn var_at(&self, var: usize) -> (v: usize)
        requires
            var < self@.vars.len(),
        ensures
            v == self@.vars[var as int],
    {
        self.vars[var]
    }

    /// How many node slots the arena has, slot 0 included.
    pub fn node_slot_count(&self) -> (n: usize)
        ensures
            n == self@.nodes.len(),
    {
        self.nodes.len()
    }

    /// How many variable slots the arena has.
    pub fn var_slot_count(&self) -> (n: usize)
        ensures
            n == self@.vars.len(),
    {
        self.vars.len()
    }

    /// How many redexes wait on the work-list.
    pub fn redex_count(&self) -> (n: usize)
        ensures
            n == self@.redexes.len(),
    {
        self.redex_stack.len()
    }

    /// Counts the occupied node slots.
    pub fn live_node_count(&self) -> (count: usize)
        ensures
            count as int == occupied_count(self@.nodes),
    {
        let mut count: usize = 0;
        let mut i: usize = 0;
        while i < self.nodes.len()
            invariant
                i <= self@.nodes.len(),
                count <= i,
                count as int == occupied_count(self@.nodes.take(i as int)),
            decreases self@.nodes.len() - i,
        {
            proof {
                assert(self@.nodes.take(i + 1 as int).drop_last() =~= self@.nodes.take(i as int));
            }
            let occupied = match self.nodes[i] {
                Node::Free => false,
                _ => true,
            };
            if occupied {
                count = count + 1;
            }
            i = i + 1;
        }
        proof {
            assert(self@.nodes.take(self@.nodes.len() as int) =~= self@.nodes);
        }
        count
    }

    /// Counts the live agents: occupied slots that are not `Var`
    /// placeholders.
    pub fn live_agent_count(&self) -> (count: usize)
        ensures
            count as int == agent_count(self@.nodes),
    {
        let mut count: usize = 0;
        let mut i: usize = 0;
        while i < self.nodes.len()
            invariant
                i <= self@.nodes.len(),
                count <= i,
                count as int == agent_count(self@.nodes.take(i as int)),
            decreases self@.nodes.len() - i,
        {
            proof {
                assert(self@.nodes.take(i + 1 as int).drop_last() =~= self@.nodes.take(i as int));
            }
            let agent = match self.nodes[i] {
                Node::Free => false,
                Node::Var(_) => false,
                _ => true,
            };
            if agent {
                count = count + 1;
            }
            i = i + 1;
        }
        proof {
            assert(self@.nodes.take(self@.nodes.len() as int) =~= self@.nodes);
        }
        count
    }

    /// Counts the variable slots in use (unlinked or linked).
    pub fn live_var_count(&self) -> (count: usize)
        ensures
            count as int == used_var_count(self@.vars),
    {
        let mut count: usize = 0;
        let mut i: usize = 0;
        while i < self.vars.len()
            invariant
                i <= self@.vars.len(),
                count <= i,
                count as int == used_var_count(self@.vars.take(i as int)),
            decreases self@.vars.len() - i,
        {
            proof {
                assert(self@.vars.take(i + 1 as int).drop_last() =~= self@.vars.take(i as int));
            }
            if self.vars[i] != 0 {
                count = count + 1;
            }
            i = i + 1;
        }
        proof {
            assert(self@.vars.take(self@.vars.len() as int) =~= self@.vars);
        }
        count
    }
}

/// Law: once a variable id sits in the free pool it is not linked (and
/// not unlinked either) anywhere in the arena — it cannot carry a target
/// until it is reallocated, and `alloc_var` guarantees that on
/// reallocation its state starts unlinked.
pub proof fn lemma_free_pool_not_linked(v: VmView, i: int)
    requires
        vm_inv(v),
        0 <= i < v.free_vars.len(),
    ensures
        var_is_free(v.vars[v.free_vars[i] as int]),
        !var_is_linked(v.vars[v.free_vars[i] as int]),
        !var_is_unlinked(v.vars[v.free_vars[i] as int]),
{
}

/// Law: erasing against a `Ref` (and any other port-free annihilation)
/// frees exactly the two redex slots — the arena does not grow, no
/// variable slot changes, and in particular the referenced definition is
/// never instantiated.
pub proof fn lemma_erase_no_expansion(pre: VmView, post: VmView, a: usize, b: usize)
    requires
        a < pre.nodes.len(),
        b < pre.nodes.len(),
        a != b,
        pre.nodes[a as int].is_occupied(),
        pre.nodes[b as int].is_occupied(),
        post == erase_result(pre, a, b),
    ensures
        occupied_count(post.nodes) == occupied_count(pre.nodes) - 2,
        post.nodes.len() == pre.nodes.len(),
        post.vars == pre.vars,
        post.free_vars == pre.free_vars,
        used_var_count(post.vars) == used_var_count(pre.vars),
{
    lemma_occupied_count_update(pre.nodes, a as int, Node::Free);
    lemma_occupied_count_update(pre.nodes.update(a as int, Node::Free), b as int, Node::Free);
}

/// Law: two instantiations, one after the other, produce disjoint slot
/// sets — no node slot and no variable id of the first copy appears in
/// the maps of the second, whatever the two templates are.
pub proof fn lemma_instances_disjoint(
    s0: VmView,
    s1: VmView,
    s2: VmView,
    d1: DescView,
    d2: DescView,
    m1: Seq<usize>,
    w1: Seq<usize>,
    m2: Seq<usize>,
    w2: Seq<usize>,
)
    requires
        desc_wf(d1),
        instantiated(s0, s1, d1, m1, w1),
        instantiated(s1, s2, d2, m2, w2),
    ensures
        forall|i: int, j: int|
            0 <= i < m1.len() && 0 <= j < m2.len() ==> m1[i] != m2[j],
        forall|i: int, j: int|
            0 <= i < w1.len() && 0 <= j < w2.len() ==> w1[i] != w2[j],
{
    assert forall|i: int, j: int|
        0 <= i < m1.len() && 0 <= j < m2.len() implies m1[i] != m2[j] by {
        assert(s1.nodes[m1[i] as int] == translate_node(d1.nodes[i], m1, w1));
        assert(template_node_wf(d1.nodes[i], d1.nodes.len() as int, d1.n_vars as int));
        assert(s1.nodes[m1[i] as int].is_occupied());
        assert(m2[j] < s1.nodes.len() ==> s1.nodes[m2[j] as int] is Free);
        assert(m1[i] < s1.nodes.len());
    }
    assert forall|i: int, j: int|
        0 <= i < w1.len() && 0 <= j < w2.len() implies w1[i] != w2[j] by {
        assert(var_is_unlinked(s1.vars[w1[i] as int]));
        assert(w2[j] < s1.vars.len() ==> var_is_free(s1.vars[w2[j] as int]));
        assert(w1[i] < s1.vars.len());
    }
}

} // verus!
