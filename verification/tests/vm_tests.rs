use inet_vm::book::Book;
use inet_vm::desc::NetDesc;
use inet_vm::node::Node;
use inet_vm::vm::NetVM;

fn run_to_normal_form(vm: &mut NetVM<'_>, budget: usize) -> usize {
    let mut steps = 0;
    while !vm.is_done() && steps < budget {
        vm.step();
        steps += 1;
    }
    assert!(vm.is_done(), "reduction did not finish within {} steps", budget);
    steps
}

#[test]
fn fresh_engine_reserves_slot_zero() {
    let book = Book::new();
    let vm = NetVM::new(&book);
    assert_eq!(vm.node_slot_count(), 1);
    assert_eq!(vm.node_at(0), Node::Free);
    assert_eq!(vm.var_slot_count(), 0);
    assert!(vm.is_done());
}

#[test]
fn alloc_free_reuses_slots() {
    let book = Book::new();
    let mut vm = NetVM::new(&book);
    let a = vm.alloc_node(Node::Era);
    assert_eq!(a, 1);
    vm.free_node(a);
    assert_eq!(vm.node_at(a), Node::Free);
    let b = vm.alloc_node(Node::Era);
    assert_eq!(b, a);
    assert_eq!(vm.live_node_count(), 1);
}

#[test]
fn freed_variable_is_not_linked_and_restarts_unlinked() {
    let book = Book::new();
    let mut vm = NetVM::new(&book);
    // One wire: two Var placeholders sharing id 0, each meeting an Era.
    let v = vm.alloc_var();
    assert_eq!(v, 0);
    assert_eq!(vm.var_at(v), usize::MAX);
    let v1 = vm.alloc_node(Node::Var(v));
    let v2 = vm.alloc_node(Node::Var(v));
    let e1 = vm.alloc_node(Node::Era);
    let e2 = vm.alloc_node(Node::Era);
    vm.add_redex(e1, v1);
    vm.add_redex(e2, v2);

    vm.step(); // links id 0 to e2
    assert_eq!(vm.var_at(v), e2);
    vm.step(); // resolves the wire: id 0 returns to the free pool
    assert_eq!(vm.var_at(v), 0);

    // On reallocation the id comes back and starts unlinked.
    let again = vm.alloc_var();
    assert_eq!(again, v);
    assert_eq!(vm.var_at(again), usize::MAX);

    vm.step(); // the two erasers annihilate
    assert!(vm.is_done());
    assert_eq!(vm.live_node_count(), 0);
}

#[test]
fn step_on_empty_worklist_is_a_no_op() {
    let book = Book::new();
    let mut vm = NetVM::new(&book);
    let e = vm.alloc_node(Node::Era);
    vm.step();
    assert!(vm.is_done());
    assert_eq!(vm.node_at(e), Node::Era);
    assert_eq!(vm.live_node_count(), 1);
}

#[test]
fn var_var_collision_chains_the_two_wires() {
    let book = Book::new();
    let mut vm = NetVM::new(&book);
    // Two wires A and B; one redex joins an endpoint of each, and the
    // remaining endpoints meet two erasers.
    let id_a = vm.alloc_var();
    let a1 = vm.alloc_node(Node::Var(id_a));
    let a2 = vm.alloc_node(Node::Var(id_a));
    let id_b = vm.alloc_var();
    let b1 = vm.alloc_node(Node::Var(id_b));
    let b2 = vm.alloc_node(Node::Var(id_b));
    let e1 = vm.alloc_node(Node::Era);
    let e2 = vm.alloc_node(Node::Era);
    vm.add_redex(a1, b1);
    vm.add_redex(e1, a2);
    vm.add_redex(e2, b2);

    // The linking rule applied to one side against the other resolves
    // the collision: the chained wires conduct, the erasers meet, and
    // both ids return to the free pool.
    run_to_normal_form(&mut vm, 100);
    assert_eq!(vm.live_node_count(), 0);
    assert_eq!(vm.var_at(id_a), 0);
    assert_eq!(vm.var_at(id_b), 0);
}

#[test]
fn con_con_annihilation_conserves() {
    let book = Book::new();
    let mut vm = NetVM::new(&book);
    let mut ports = [0usize; 4];
    for p in ports.iter_mut() {
        let id = vm.alloc_var();
        *p = vm.alloc_node(Node::Var(id));
    }
    let c1 = vm.alloc_node(Node::Con(ports[0], ports[1]));
    let c2 = vm.alloc_node(Node::Con(ports[2], ports[3]));
    vm.add_redex(c1, c2);

    assert_eq!(vm.live_node_count(), 6);
    assert_eq!(vm.live_var_count(), 4);
    vm.step();
    // Exactly the two Con slots are consumed; no new variables appear.
    assert_eq!(vm.live_node_count(), 4);
    assert_eq!(vm.live_agent_count(), 0);
    assert_eq!(vm.live_var_count(), 4);
    assert_eq!(vm.var_slot_count(), 4);
    assert_eq!(vm.redex_count(), 2);
}

#[test]
fn dup_dup_annihilation_conserves() {
    let book = Book::new();
    let mut vm = NetVM::new(&book);
    let mut ports = [0usize; 4];
    for p in ports.iter_mut() {
        let id = vm.alloc_var();
        *p = vm.alloc_node(Node::Var(id));
    }
    let d1 = vm.alloc_node(Node::Dup(ports[0], ports[1]));
    let d2 = vm.alloc_node(Node::Dup(ports[2], ports[3]));
    vm.add_redex(d1, d2);

    assert_eq!(vm.live_node_count(), 6);
    vm.step();
    assert_eq!(vm.live_node_count(), 4);
    assert_eq!(vm.live_var_count(), 4);
    assert_eq!(vm.redex_count(), 2);
}

#[test]
fn con_dup_commutation_grows() {
    let book = Book::new();
    let mut vm = NetVM::new(&book);
    let mut ports = [0usize; 4];
    for p in ports.iter_mut() {
        let id = vm.alloc_var();
        *p = vm.alloc_node(Node::Var(id));
    }
    let c = vm.alloc_node(Node::Con(ports[0], ports[1]));
    let d = vm.alloc_node(Node::Dup(ports[2], ports[3]));
    vm.add_redex(c, d);

    assert_eq!(vm.live_agent_count(), 2);
    assert_eq!(vm.live_var_count(), 4);
    vm.step();
    // The two agents are consumed; exactly four clone agents and four
    // fresh variable ids (each with its two placeholder nodes) appear.
    assert_eq!(vm.live_agent_count(), 4);
    assert_eq!(vm.live_var_count(), 8);
    assert_eq!(vm.live_node_count(), 16);
    assert_eq!(vm.redex_count(), 4);
    // The four consumed-or-created slots hold two Dup and two Con clones.
    let mut dups = 0;
    let mut cons = 0;
    for i in 1..vm.node_slot_count() {
        match vm.node_at(i) {
            Node::Dup(_, _) => dups += 1,
            Node::Con(_, _) => cons += 1,
            _ => {}
        }
    }
    assert_eq!((dups, cons), (2, 2));
}

#[test]
fn erasing_a_numeral_erases_its_whole_tree() {
    let book = Book::new();
    let mut desc = NetDesc::new();
    let n = desc.church_n(2);
    desc.erase(n);
    let (dangling, out) = desc.add_var();
    let _ = dangling;

    let mut vm = NetVM::new(&book);
    let ext = vm.load_main_desc(&desc, out);
    run_to_normal_form(&mut vm, 10_000);
    // Only the dangling output wire survives: both its placeholder and
    // the slot the external variable linked to.
    assert_eq!(vm.live_node_count(), 2);
    assert_eq!(vm.live_var_count(), 2);
    assert_ne!(vm.var_at(ext), usize::MAX);
}

#[test]
fn erasing_a_ref_never_instantiates_it() {
    let mut book = Book::new();
    // Reserved but never filled: any expansion would be a loud failure.
    let unfilled = book.alloc_desc();

    let mut desc = NetDesc::new();
    let r = desc.make_ref(unfilled);
    desc.erase(r);
    let (dangling, out) = desc.add_var();
    let _ = dangling;

    let mut vm = NetVM::new(&book);
    let _ext = vm.load_main_desc(&desc, out);
    let slots_before = vm.node_slot_count();
    let vars_before = vm.var_slot_count();
    run_to_normal_form(&mut vm, 100);
    // Era-Ref annihilates: the arena never grew, nothing was copied in.
    assert_eq!(vm.node_slot_count(), slots_before);
    assert_eq!(vm.var_slot_count(), vars_before);
    assert_eq!(vm.live_node_count(), 2);
}

#[test]
fn two_instances_of_one_definition_stay_disjoint() {
    let mut book = Book::new();
    let zero_def = book.alloc_desc();
    let mut zero_desc = NetDesc::new();
    let z = zero_desc.church_0();
    book.set_desc(zero_def, zero_desc, z);

    // The entry template wires a numeral instance straight to the output.
    let mut main = NetDesc::new();
    let n = main.church_0();

    let mut vm = NetVM::new(&book);
    let _ext1 = vm.load_main_desc(&main, n);
    run_to_normal_form(&mut vm, 1_000);

    // Snapshot every live slot of the first, fully reduced instance.
    let mut live_before: Vec<(usize, Node)> = Vec::new();
    for i in 1..vm.node_slot_count() {
        let node = vm.node_at(i);
        if node != Node::Free {
            live_before.push((i, node));
        }
    }
    let live_count_single = vm.live_node_count();
    let var_count_single = vm.live_var_count();

    // Instantiating the same entry again uses only fresh or freed slots,
    // and reducing the second copy leaves the first untouched.
    let _ext2 = vm.load_main_desc(&main, n);
    run_to_normal_form(&mut vm, 1_000);
    for (i, node) in live_before.iter() {
        assert_eq!(vm.node_at(*i), *node);
    }
    assert_eq!(vm.live_node_count(), 2 * live_count_single);
    assert_eq!(vm.live_var_count(), 2 * var_count_single);
}

#[test]
fn ref_expansion_retries_against_the_body() {
    let mut book = Book::new();
    let zero_def = book.alloc_desc();
    let mut zero_desc = NetDesc::new();
    let z = zero_desc.church_0();
    book.set_desc(zero_def, zero_desc, z);

    // A Con probe forces the Ref to expand, then annihilates with the
    // zero's root; everything erases down to the dangling output wire.
    let mut main = NetDesc::new();
    let r = main.make_ref(zero_def);
    let (w1, w2) = main.add_var();
    let c = main.make_con(w1, w2);
    main.add_redex(c, r);
    let (dangling, out) = main.add_var();
    let _ = dangling;

    let mut vm = NetVM::new(&book);
    let _ext = vm.load_main_desc(&main, out);
    run_to_normal_form(&mut vm, 10_000);
    assert_eq!(vm.live_node_count(), 2);
}

/// A recursive addition definition over triadic-multiplexed numerals.
/// The body receives `mux3(a, b, cont)` on its output wire.  One `ifz`
/// selects the continuation value (`b` on zero, the forwarded sub-result
/// otherwise); a second `ifz` on another copy of `a` guards the
/// application: on zero it routes an `Era` onto the self-`Ref`, which is
/// annihilated without ever instantiating another level, and on nonzero
/// it routes the argument tuple onto the `Ref`, which then expands.
fn build_add(book: &mut Book) -> usize {
    let add_book_idx = book.alloc_desc();
    let mut d = NetDesc::new();
    let (in1, in2) = d.add_var();

    // Destructure the input tuple into three wires.
    let (aw1, aw2) = d.add_var();
    let (bw1, bw2) = d.add_var();
    let (cw1, cw2) = d.add_var();
    d.demux3(in1, aw1, bw1, cw1);

    // Three copies of `a` (two tests and one predecessor)...
    let (p1a, p1b) = d.add_var();
    let (p2a, p2b) = d.add_var();
    let dup1 = d.make_dup(p1a, p2a);
    d.add_redex(dup1, aw2);
    let (p3a, p3b) = d.add_var();
    let (p4a, p4b) = d.add_var();
    let dup2 = d.make_dup(p3a, p4a);
    d.add_redex(dup2, p2b);

    // ...and two copies of `b`.
    let (q1a, q1b) = d.add_var();
    let (q2a, q2b) = d.add_var();
    let dup_b = d.make_dup(q1a, q2a);
    d.add_redex(dup_b, bw2);

    // Continuation selection: `b` on zero, the sub-result otherwise.
    let (nc1, nc2) = d.add_var();
    d.church_ifz(p1b, q1b, nc1, cw2);

    // The argument tuple of the recursive call.
    let (po1, po2) = d.add_var();
    d.church_pred(p4b, po1);
    let succ = d.church_succ(q2b);
    let args = d.mux3(po2, succ, nc2);

    // Application guard: an `Era` or the argument tuple reaches the
    // self-`Ref` through the `h` wire, never both.
    let (h1, h2) = d.add_var();
    let era_guard = d.make_era();
    d.church_ifz(p3b, era_guard, args, h1);
    let self_ref = d.make_ref(add_book_idx);
    d.add_redex(self_ref, h2);

    book.set_desc(add_book_idx, d, in2);
    add_book_idx
}

/// Reduces `2 + 3`, applies `church_pred` `k` times to the result, and
/// probes it with `church_ifz` whose two branches are `Ref`s of two
/// reserved marker ids: the selected marker survives linked into the
/// output wire, the discarded one is erased without expansion.  Returns
/// how many zero markers and nonzero markers are left live.
fn probe_sum_after_preds(k: usize) -> (usize, usize) {
    let mut book = Book::new();
    let add_idx = build_add(&mut book);
    let zero_marker = book.alloc_desc();
    let nonzero_marker = book.alloc_desc();

    let mut main = NetDesc::new();
    let (r1, r2) = main.add_var();
    let a = main.church_n(2);
    let b = main.church_n(3);
    let mux = main.mux3(a, b, r1);
    let add_ref = main.make_ref(add_idx);
    main.add_redex(mux, add_ref);

    let mut cur = r2;
    for _ in 0..k {
        let (p1, p2) = main.add_var();
        main.church_pred(cur, p1);
        cur = p2;
    }
    let z = main.make_ref(zero_marker);
    let nz = main.make_ref(nonzero_marker);
    let (f1, f2) = main.add_var();
    main.church_ifz(cur, z, nz, f1);

    let mut vm = NetVM::new(&book);
    let _ext = vm.load_main_desc(&main, f2);
    run_to_normal_form(&mut vm, 200_000);

    let mut zeros = 0;
    let mut nonzeros = 0;
    for i in 1..vm.node_slot_count() {
        match vm.node_at(i) {
            Node::Ref(d) if d == zero_marker => zeros += 1,
            Node::Ref(d) if d == nonzero_marker => nonzeros += 1,
            _ => {}
        }
    }
    (zeros, nonzeros)
}

#[test]
fn addition_two_plus_three_is_five() {
    // pred^k(2 + 3) is nonzero for k < 5 and zero from k = 5 on.
    for k in 0..5 {
        assert_eq!(probe_sum_after_preds(k), (0, 1), "pred^{} of 5", k);
    }
    assert_eq!(probe_sum_after_preds(5), (1, 0));
    assert_eq!(probe_sum_after_preds(6), (1, 0));
}
