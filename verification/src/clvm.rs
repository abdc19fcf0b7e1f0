//! Trusted declarations and wrappers for the CLVM evaluator that runs the
//! per-game-type factory programs.
//!
//! Nodes are handles into an arena allocator, so nothing can be said of
//! their values; the wrappers state only what holds of every outcome, and
//! the verified expander treats the handles as opaque.

use vstd::prelude::*;

verus! {

#[verifier::external_type_specification]
#[verifier::external_body]
pub struct ExAllocator(clvmr::Allocator);

#[verifier::external_type_specification]
#[verifier::external_body]
pub struct ExNodePtr(clvmr::NodePtr);

#[verifier::external_type_specification]
#[verifier::external_body]
pub struct ExChiaDialect(clvmr::ChiaDialect);

/// Relies on clvmr's `serde::node_from_bytes`: parse one serialized CLVM
/// structure into the arena, or fail on malformed bytes.
#[verifier::external_body]
pub(crate) fn node_from_bytes(a: &mut clvmr::Allocator, b: &Vec<u8>) -> (r: Option<
    clvmr::NodePtr,
>) {
    clvmr::serde::node_from_bytes(a, b.as_slice()).ok()
}

/// Relies on clvmr's `serde::node_to_bytes`: serialize the structure the
/// node points at.
#[verifier::external_body]
pub(crate) fn node_to_bytes(a: &clvmr::Allocator, n: clvmr::NodePtr) -> (r: Option<Vec<u8>>) {
    clvmr::serde::node_to_bytes(a, n).ok()
}

/// Relies on clvmr's `Allocator::new_atom`: place an atom in the arena.
#[verifier::external_body]
pub(crate) fn new_atom(a: &mut clvmr::Allocator, b: &Vec<u8>) -> (r: Option<clvmr::NodePtr>) {
    a.new_atom(b.as_slice()).ok()
}

/// Relies on clvmr's `Allocator::new_pair`: place a pair in the arena.
#[verifier::external_body]
pub(crate) fn new_pair(
    a: &mut clvmr::Allocator,
    first: clvmr::NodePtr,
    rest: clvmr::NodePtr,
) -> (r: Option<clvmr::NodePtr>) {
    a.new_pair(first, rest).ok()
}

/// Relies on clvmr's `Allocator::nil`: the empty-list atom.
#[verifier::external_body]
pub(crate) fn nil(a: &clvmr::Allocator) -> (r: clvmr::NodePtr) {
    a.nil()
}

/// Relies on clvmr's `ChiaDialect::new`: the operator set the factory
/// programs are written against.
#[verifier::external_body]
pub(crate) fn chia_dialect(flags: u32) -> (r: clvmr::ChiaDialect) {
    clvmr::ChiaDialect::new(flags)
}

/// Relies on clvmr's `run_program`: evaluate `program` on `env`; a cost
/// limit of zero means no limit.
#[verifier::external_body]
pub(crate) fn run_program(
    a: &mut clvmr::Allocator,
    dialect: &clvmr::ChiaDialect,
    program: clvmr::NodePtr,
    env: clvmr::NodePtr,
    max_cost: u64,
) -> (r: Option<clvmr::NodePtr>) {
    clvmr::run_program(a, dialect, program, env, max_cost).ok().map(|reduction| reduction.1)
}

/// Relies on clvm_tools_rs's `proper_list`: the elements of a nil-terminated
/// list, or nothing when the node is no such list.
#[verifier::external_body]
pub(crate) fn proper_list(a: &clvmr::Allocator, n: clvmr::NodePtr, store: bool) -> (r: Option<
    Vec<clvmr::NodePtr>,
>) {
    clvm_tools_rs::classic::clvm::sexp::proper_list(a, n, store)
}

} // verus!
