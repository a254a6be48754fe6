//! Sparse simulated memory keyed by word-aligned address.
//!
//! A `MemoryStore` maps an address index to a 64-bit content word; the
//! index of a composite address is `(base + offset) / 8`, and stores and
//! loads require the composite address to be an exact multiple of 8. The
//! sparse mapping models arbitrary pointer arithmetic without allocating a
//! contiguous address space. Each logical execution context owns its own
//! store, created empty, so contexts never observe each other's stores.
use std::collections::HashMap;

use vstd::prelude::*;

use crate::word::{b64, jv};

verus! {

/// The address index a base address and byte offset select.
pub open spec fn addr_index(p: u64, off: usize) -> usize {
    (((p + off) as int) / 8) as usize
}

/// Computes the address index of a composite address: `(p + off) / 8`.
/// The composite address must fit the machine word.
pub fn addr_to_idx(p: u64, off: usize) -> (i: usize)
    requires
        p + off <= usize::MAX,
    ensures
        i == addr_index(p, off),
{
    ((p as usize) + off) / 8
}

/// A sparse, byte-addressed simulated memory of 64-bit words. Only 64-bit
/// accesses are defined; narrower accesses are out of scope.
pub struct MemoryStore {
    cells: HashMap<usize, u64>,
}

impl View for MemoryStore {
    type V = Map<usize, u64>;

    closed spec fn view(&self) -> Map<usize, u64> {
        self.cells@
    }
}

impl MemoryStore {
    /// Creates an empty store: no address has been written yet.
    pub fn new() -> (r: MemoryStore)
        ensures
            r@ == Map::<usize, u64>::empty(),
    {
        MemoryStore { cells: HashMap::new() }
    }

    /// Stores `x` at the word-aligned composite address `p + off`,
    /// inserting or overwriting the mapping at its address index.
    pub fn store_mem(&mut self, p: u64, off: usize, x: b64)
        requires
            p + off <= usize::MAX,
            (p + off) % 8 == 0,
        ensures
            final(self)@ == old(self)@.insert(addr_index(p, off), x.val),
    {
        let i = addr_to_idx(p, off);
        self.cells.insert(i, x.val);
    }

    /// Whether the word-aligned composite address `p + off` has been stored
    /// to before.
    pub fn contains_addr(&self, p: u64, off: usize) -> (r: bool)
        requires
            p + off <= usize::MAX,
        ensures
            r == self@.contains_key(addr_index(p, off)),
    {
        let i = addr_to_idx(p, off);
        self.cells.contains_key(&i)
    }

    /// Loads the word stored at the word-aligned composite address
    /// `p + off`. The address must have been stored to before: reading
    /// uninitialized memory is a programmer error, which `try_load_mem`
    /// reports instead of requiring.
    pub fn load_mem(&self, p: u64, off: usize) -> (r: b64)
        requires
            p + off <= usize::MAX,
            (p + off) % 8 == 0,
            self@.contains_key(addr_index(p, off)),
        ensures
            r.val == self@[addr_index(p, off)],
    {
        match self.try_load_mem(p, off) {
            Some(r) => r,
            None => jv(0),  // unreachable: the address index is present
        }
    }

    /// Loads the word at the word-aligned composite address `p + off`, or
    /// returns `None` exactly when that address was never stored to — the
    /// uninitialized-memory read that a running program treats as fatal.
    pub fn try_load_mem(&self, p: u64, off: usize) -> (r: Option<b64>)
        requires
            p + off <= usize::MAX,
            (p + off) % 8 == 0,
        ensures
            match r {
                Some(x) => self@.contains_key(addr_index(p, off)) && x.val == self@[addr_index(
                    p,
                    off,
                )],
                None => !self@.contains_key(addr_index(p, off)),
            },
    {
        let i = addr_to_idx(p, off);
        match self.cells.get(&i) {
            Some(x) => Some(jv(*x)),
            None => None,
        }
    }
}

/// Memory round trip: storing a word at a composite address and loading the
/// same composite address returns that word exactly, on any prior contents
/// of the store. Together with the contracts of `store_mem`, `load_mem` and
/// `try_load_mem`, which are stated over this same model, this pins the
/// store/load pair down.
pub proof fn lemma_store_load_roundtrip(m: Map<usize, u64>, p: u64, off: usize, v: u64)
    ensures
        m.insert(addr_index(p, off), v).contains_key(addr_index(p, off)),
        m.insert(addr_index(p, off), v)[addr_index(p, off)] == v,
{
}

} // verus!
