//! Width-tagged word values and explicit lifting.
//!
//! A `Jval<T>` wraps an unsigned primitive of a fixed bit width
//! (`bool` doubles as the 1-bit flag type). The only way to produce one
//! from a raw primitive is the per-width `ToJval` lifting; lifting an
//! already-tagged value is the identity, so lifting is idempotent.
use vstd::prelude::*;

verus! {

/// An immutable, copyable wrapper around an unsigned integer of a fixed
/// bit width. Equality is structural: same width (type) and same raw value.
#[derive(Clone, Copy, Debug, PartialEq, Eq, Structural)]
pub struct Jval<T> {
    pub val: T,
}

/// 1-bit word: the boolean / carry-flag type.
#[allow(non_camel_case_types)]
pub type b1 = Jval<bool>;

/// 8-bit word.
#[allow(non_camel_case_types)]
pub type b8 = Jval<u8>;

/// 16-bit word.
#[allow(non_camel_case_types)]
pub type b16 = Jval<u16>;

/// 32-bit word.
#[allow(non_camel_case_types)]
pub type b32 = Jval<u32>;

/// 64-bit word: the width the arithmetic library and the memory store use.
#[allow(non_camel_case_types)]
pub type b64 = Jval<u64>;

/// Wraps a raw value into a `Jval` of the matching width.
pub fn jv<T>(x: T) -> (r: Jval<T>)
    ensures
        r == (Jval { val: x }),
{
    Jval { val: x }
}

/// Explicit lifting of a value into a width-tagged word.
///
/// Each operand position of the arithmetic library accepts anything that
/// lifts to the right width, so both tagged words and raw literals of the
/// matching width can be passed. Arrays and aggregates are deliberately
/// not liftable, to avoid accidental bulk coercion.
pub trait ToJval<T>: Sized {
    /// What lifting this value yields.
    spec fn lifted(self) -> Jval<T>;

    /// Lifts this value into a width-tagged word.
    fn to_jval(self) -> (r: Jval<T>)
        ensures
            r == self.lifted(),
    ;
}

impl<T> ToJval<T> for Jval<T> {
    /// Lifting an already-tagged word returns it unchanged.
    open spec fn lifted(self) -> Jval<T> {
        self
    }

    fn to_jval(self) -> (r: Jval<T>) {
        self
    }
}

impl ToJval<u64> for u64 {
    open spec fn lifted(self) -> Jval<u64> {
        Jval { val: self }
    }

    fn to_jval(self) -> (r: Jval<u64>) {
        Jval { val: self }
    }
}

impl ToJval<u32> for u32 {
    open spec fn lifted(self) -> Jval<u32> {
        Jval { val: self }
    }

    fn to_jval(self) -> (r: Jval<u32>) {
        Jval { val: self }
    }
}

impl ToJval<u16> for u16 {
    open spec fn lifted(self) -> Jval<u16> {
        Jval { val: self }
    }

    fn to_jval(self) -> (r: Jval<u16>) {
        Jval { val: self }
    }
}

impl ToJval<u8> for u8 {
    open spec fn lifted(self) -> Jval<u8> {
        Jval { val: self }
    }

    fn to_jval(self) -> (r: Jval<u8>) {
        Jval { val: self }
    }
}

impl ToJval<bool> for bool {
    open spec fn lifted(self) -> Jval<bool> {
        Jval { val: self }
    }

    fn to_jval(self) -> (r: Jval<bool>) {
        Jval { val: self }
    }
}

/// Lifting is idempotent: whatever `x` lifts to, lifting that word again
/// returns it unchanged, at every width.
pub proof fn lemma_lift_idempotent<S: ToJval<T>, T>(x: S)
    ensures
        x.lifted().lifted() == x.lifted(),
{
}

/// A 64-bit word doubles as an array index: bounds-checked indexing by the
/// underlying integer.
pub fn index(a: &Vec<b64>, i: b64) -> (r: b64)
    requires
        i.val < a@.len(),
    ensures
        r == a@[i.val as int],
{
    proof {
        assert(a.len() == a@.len());
    }
    a[i.val as usize]
}

/// Bounds-checked update of one array element, indexed by a 64-bit word.
pub fn index_assign(a: &mut Vec<b64>, i: b64, x: b64)
    requires
        i.val < old(a)@.len(),
    ensures
        final(a)@ == old(a)@.update(i.val as int, x),
{
    proof {
        assert(a.len() == a@.len());
    }
    a[i.val as usize] = x;
}

} // verus!
