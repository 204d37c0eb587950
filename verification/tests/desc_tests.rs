use inet_vm::book::Book;
use inet_vm::desc::NetDesc;
use inet_vm::node::Node;

#[test]
fn add_node_returns_successive_indices() {
    let mut d = NetDesc::new();
    assert_eq!(d.add_node(Node::Era), 0);
    assert_eq!(d.add_node(Node::Con(0, 0)), 1);
    assert_eq!(d.nodes.len(), 2);
    assert_eq!(d.nodes[0], Node::Era);
    assert_eq!(d.nodes[1], Node::Con(0, 0));
}

#[test]
fn add_var_allocates_one_shared_id() {
    let mut d = NetDesc::new();
    let (v1, v2) = d.add_var();
    assert_eq!((v1, v2), (0, 1));
    assert_eq!(d.n_vars, 1);
    assert_eq!(d.nodes[v1], Node::Var(0));
    assert_eq!(d.nodes[v2], Node::Var(0));
    let (v3, v4) = d.add_var();
    assert_eq!((v3, v4), (2, 3));
    assert_eq!(d.nodes[v3], Node::Var(1));
    assert_eq!(d.nodes[v4], Node::Var(1));
}

#[test]
fn add_redex_records_pairs_in_order() {
    let mut d = NetDesc::new();
    let a = d.add_node(Node::Era);
    let b = d.add_node(Node::Era);
    d.add_redex(a, b);
    assert_eq!(d.redexes, vec![(0, 1)]);
}

#[test]
fn mux3_builds_right_leaning_con_tree() {
    let mut d = NetDesc::new();
    let a = d.make_era();
    let b = d.make_era();
    let c = d.make_era();
    let m = d.mux3(a, b, c);
    assert_eq!(m, 4);
    assert_eq!(d.nodes[3], Node::Con(b, c));
    assert_eq!(d.nodes[4], Node::Con(a, 3));
}

#[test]
fn demux3_reverses_the_inner_pair() {
    let mut d = NetDesc::new();
    let inp = d.make_era();
    let a = d.make_era();
    let b = d.make_era();
    let c = d.make_era();
    d.demux3(inp, a, b, c);
    // The inner CON holds (c, b), reversed relative to mux3's (b, c).
    assert_eq!(d.nodes[4], Node::Con(c, b));
    assert_eq!(d.nodes[5], Node::Con(4, a));
    assert_eq!(d.redexes, vec![(5, inp)]);
}

#[test]
fn church_zero_structure() {
    let mut d = NetDesc::new();
    let z = d.church_0();
    assert_eq!(z, 4);
    assert_eq!(d.n_vars, 1);
    assert_eq!(
        d.nodes,
        vec![
            Node::Var(0),
            Node::Var(0),
            Node::Era,
            Node::Con(0, 1),
            Node::Con(2, 3),
        ]
    );
}

#[test]
fn church_succ_structure() {
    let mut d = NetDesc::new();
    let z = d.church_0();
    let s = d.church_succ(z);
    assert_eq!(s, 10);
    assert_eq!(d.n_vars, 2);
    // pair (5, 6), con(z, 5) at 7, era at 8, mux3(7, 8, 6) at 9..10.
    assert_eq!(d.nodes[5], Node::Var(1));
    assert_eq!(d.nodes[6], Node::Var(1));
    assert_eq!(d.nodes[7], Node::Con(z, 5));
    assert_eq!(d.nodes[8], Node::Era);
    assert_eq!(d.nodes[9], Node::Con(8, 6));
    assert_eq!(d.nodes[10], Node::Con(7, 9));
}

#[test]
fn church_n_folds_succ_over_zero() {
    let mut d = NetDesc::new();
    let n = d.church_n(2);
    // church_0 takes 5 nodes, each succ 6 more; one variable pair each.
    assert_eq!(d.nodes.len(), 17);
    assert_eq!(n, 16);
    assert_eq!(d.n_vars, 3);

    let mut e = NetDesc::new();
    let z = e.church_0();
    let s1 = e.church_succ(z);
    let s2 = e.church_succ(s1);
    assert_eq!(d.nodes, e.nodes);
    assert_eq!(n, s2);
}

#[test]
fn erase_seeds_a_fresh_era() {
    let mut d = NetDesc::new();
    let n = d.church_0();
    d.erase(n);
    assert_eq!(d.nodes[5], Node::Era);
    assert_eq!(d.redexes, vec![(5, n)]);
}

#[test]
fn book_two_phase_registration() {
    let mut book = Book::new();
    let first = book.alloc_desc();
    let second = book.alloc_desc();
    assert_eq!(first, 0);
    assert_eq!(second, 1);

    let mut d = NetDesc::new();
    // A body may reference its own id before the body is filled in.
    let r = d.make_ref(second);
    d.erase(r);
    let out = r;
    book.set_desc(second, d, out);

    let looked_up = book.get(second);
    assert_eq!(looked_up.1, out);
    assert_eq!(looked_up.0.nodes[0], Node::Ref(second));
}
