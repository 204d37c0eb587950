//! A sequential graph-rewriting virtual machine for interaction combinators.
//!
//! Agents (`Era`, `Con`, `Dup`, `Var`, `Ref`) are wired into a graph held in
//! an arena of integer-indexed slots.  Template graphs (`NetDesc`) are
//! authored with builder combinators, registered in a two-phase definitions
//! table (`Book`), and instantiated and reduced by the engine (`NetVM`),
//! which pops one active pair at a time and applies the matching
//! interaction rule until the work-list is empty.

pub mod book;
pub mod builders;
pub mod desc;
pub mod node;
pub mod vm;
