use vstd::prelude::*;

use crate::desc::{DescView, NetDesc};

verus! {

/// Mathematical model of the definitions table: the registered
/// (template, output index) entries in reservation order, and the set of
/// ids whose body has been filled in.
#[verifier::ext_equal]
pub ghost struct BookView {
    pub defs: Seq<(DescView, usize)>,
    pub filled: Set<int>,
}

/// The definitions table: templates keyed by the integer id assigned at
/// reservation time.  Registration is two-phase — `alloc_desc` reserves an
/// id and `set_desc` fills its body — so a template under construction can
/// embed a `Ref` to its own not-yet-finished id.
pub struct Book {
    pub descs: Vec<(NetDesc, usize)>,
    /// Which ids have had their body filled in; reading a reserved but
    /// unfilled id is a caller error, never a defined default.
    pub filled: Ghost<Set<int>>,
}

impl View for Book {
    type V = BookView;

    open spec fn view(&self) -> BookView {
        BookView {
            defs: Seq::new(self.descs@.len(), |i: int| (self.descs@[i].0@, self.descs@[i].1)),
            filled: self.filled@,
        }
    }
}

impl Book {
    /// An empty table with no reserved ids.
    pub fn new() -> (b: Book)
        ensures
            b@.defs.len() == 0,
            b@.filled == Set::<int>::empty(),
    {
        Book { descs: Vec::new(), filled: Ghost(Set::empty()) }
    }

    /// Reserves the next id, backed by an empty placeholder, and returns
    /// it.  The id counts as unfilled until `set_desc` provides the body.
    pub fn alloc_desc(&mut self) -> (id: usize)
        ensures
            id == old(self)@.defs.len(),
            final(self)@.defs.len() == old(self)@.defs.len() + 1,
            forall|i: int|
                0 <= i < old(self)@.defs.len() ==> final(self)@.defs[i] == old(self)@.defs[i],
            final(self)@.filled == old(self)@.filled,
    {
        self.descs.push((NetDesc::new(), 0));
        self.descs.len() - 1
    }

    /// Fills the body of a reserved id: overwrites its placeholder with the
    /// finished template and the local index of its output node.
    pub fn set_desc(&mut self, idx: usize, desc: NetDesc, desc_principal_out: usize)
        requires
            idx < old(self)@.defs.len(),
        ensures
            final(self)@.defs.len() == old(self)@.defs.len(),
            final(self)@.defs[idx as int] == (desc@, desc_principal_out),
            forall|i: int|
                0 <= i < old(self)@.defs.len() && i != idx ==> final(self)@.defs[i] == old(
                    self,
                )@.defs[i],
            final(self)@.filled == old(self)@.filled.insert(idx as int),
    {
        self.descs.set(idx, (desc, desc_principal_out));
        self.filled = Ghost(self.filled@.insert(idx as int));
    }

    /// Looks a filled id up: its template and output node index.  Calling
    /// this on a reserved but unfilled id is a contract violation; the
    /// table never substitutes an empty body for a missing one.
    pub fn get(&self, idx: usize) -> (r: (&NetDesc, usize))
        requires
            idx < self@.defs.len(),
            self@.filled.contains(idx as int),
        ensures
            (r.0@, r.1) == self@.defs[idx as int],
    {
        (&self.descs[idx].0, self.descs[idx].1)
    }
}

} // verus!
