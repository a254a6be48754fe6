//! 64-bit word arithmetic with exact hardware semantics.
//!
//! Every operation is pure and wraps modulo 2^64; unsigned overflow and
//! underflow are never an error and are surfaced only through the explicit
//! carry/borrow flag of the flag-returning variants. Each operand position
//! accepts either a tagged word or a raw 64-bit literal, which is lifted
//! before use.
use vstd::prelude::*;

use crate::word::{b1, b64, jv, ToJval};

verus! {

/// The modulus of 64-bit wraparound arithmetic, as a mathematical integer.
pub open spec fn two_to_64() -> int {
    0x1_0000_0000_0000_0000
}

/// A carry or borrow flag as the 0/1 integer it denotes.
pub open spec fn flag_bit(b: bool) -> int {
    if b {
        1
    } else {
        0
    }
}

/// Wrapping addition: `(x + y) mod 2^64`.
pub fn add_v<T1: ToJval<u64>, T2: ToJval<u64>>(x: T1, y: T2) -> (r: b64)
    ensures
        r.val == (x.lifted().val + y.lifted().val) % two_to_64(),
{
    let (x, y) = (x.to_jval(), y.to_jval());
    jv(x.val.wrapping_add(y.val))
}

/// Addition with carry out: the flag is set iff `x + y >= 2^64`, the value
/// is `(x + y) mod 2^64`.
pub fn add<T1: ToJval<u64>, T2: ToJval<u64>>(x: T1, y: T2) -> (r: (b1, b64))
    ensures
        r.0.val == (x.lifted().val + y.lifted().val >= two_to_64()),
        r.1.val == (x.lifted().val + y.lifted().val) % two_to_64(),
{
    let (x, y) = (x.to_jval(), y.to_jval());
    match x.val.checked_add(y.val) {
        Some(s) => (jv(false), jv(s)),
        None => (jv(true), jv(x.val.wrapping_add(y.val))),
    }
}

/// Wrapping addition with carry in: `(x + y + cf) mod 2^64`.
pub fn adc_v<T1: ToJval<u64>, T2: ToJval<u64>, T3: ToJval<bool>>(x: T1, y: T2, cf: T3) -> (r: b64)
    ensures
        r.val == (x.lifted().val + y.lifted().val + flag_bit(cf.lifted().val)) % two_to_64(),
{
    let (x, y, cf) = (x.to_jval(), y.to_jval(), cf.to_jval());
    let c: u64 = if cf.val {
        1
    } else {
        0
    };
    jv(x.val.wrapping_add(y.val).wrapping_add(c))
}

/// Add with carry: two staged additions whose overflow flags are combined
/// with OR, which this contract proves equal to the hardware semantics:
/// carry out iff `x + y + cf >= 2^64`, value `(x + y + cf) mod 2^64`.
pub fn adc<T1: ToJval<u64>, T2: ToJval<u64>, T3: ToJval<bool>>(x: T1, y: T2, cf: T3) -> (r: (
    b1,
    b64,
))
    ensures
        r.0.val == (x.lifted().val + y.lifted().val + flag_bit(cf.lifted().val) >= two_to_64()),
        r.1.val == (x.lifted().val + y.lifted().val + flag_bit(cf.lifted().val)) % two_to_64(),
{
    let (x, y, cf) = (x.to_jval(), y.to_jval(), cf.to_jval());
    let c: u64 = if cf.val {
        1
    } else {
        0
    };
    let r1 = x.val.wrapping_add(y.val);
    let cf1 = r1 < x.val;
    let r2 = r1.wrapping_add(c);
    let cf2 = r2 < r1;
    (jv(cf1 || cf2), jv(r2))
}

/// Wrapping subtraction: `(x - y) mod 2^64`.
pub fn sub_v<T1: ToJval<u64>, T2: ToJval<u64>>(x: T1, y: T2) -> (r: b64)
    ensures
        r.val == (x.lifted().val - y.lifted().val) % two_to_64(),
{
    let (x, y) = (x.to_jval(), y.to_jval());
    jv(x.val.wrapping_sub(y.val))
}

/// Subtraction with borrow out: the flag is set iff `x < y`, the value is
/// `(x - y) mod 2^64`.
pub fn sub<T1: ToJval<u64>, T2: ToJval<u64>>(x: T1, y: T2) -> (r: (b1, b64))
    ensures
        r.0.val == (x.lifted().val < y.lifted().val),
        r.1.val == (x.lifted().val - y.lifted().val) % two_to_64(),
{
    let (x, y) = (x.to_jval(), y.to_jval());
    (jv(x.val < y.val), jv(x.val.wrapping_sub(y.val)))
}

/// Wrapping subtraction with borrow in: `(x - y - cf) mod 2^64`.
pub fn sbb_v<T1: ToJval<u64>, T2: ToJval<u64>, T3: ToJval<bool>>(x: T1, y: T2, cf: T3) -> (r: b64)
    ensures
        r.val == (x.lifted().val - y.lifted().val - flag_bit(cf.lifted().val)) % two_to_64(),
{
    let (x, y, cf) = (x.to_jval(), y.to_jval(), cf.to_jval());
    let c: u64 = if cf.val {
        1
    } else {
        0
    };
    jv(x.val.wrapping_sub(y.val).wrapping_sub(c))
}

/// Subtract with borrow: two staged subtractions whose borrow flags are
/// combined with OR, which this contract proves equal to the hardware
/// semantics: borrow out iff `x < y + cf`, value `(x - y - cf) mod 2^64`.
pub fn sbb<T1: ToJval<u64>, T2: ToJval<u64>, T3: ToJval<bool>>(x: T1, y: T2, cf: T3) -> (r: (
    b1,
    b64,
))
    ensures
        r.0.val == (x.lifted().val < y.lifted().val + flag_bit(cf.lifted().val)),
        r.1.val == (x.lifted().val - y.lifted().val - flag_bit(cf.lifted().val)) % two_to_64(),
{
    let (x, y, cf) = (x.to_jval(), y.to_jval(), cf.to_jval());
    let c: u64 = if cf.val {
        1
    } else {
        0
    };
    let r1 = x.val.wrapping_sub(y.val);
    let cf1 = x.val < y.val;
    let r2 = r1.wrapping_sub(c);
    let cf2 = r1 < c;
    (jv(cf1 || cf2), jv(r2))
}

/// Full 64x64 -> 128 unsigned multiplication, split into two 64-bit halves:
/// `high * 2^64 + low == x * y` exactly.
pub fn mul<T1: ToJval<u64>, T2: ToJval<u64>>(x: T1, y: T2) -> (r: (b64, b64))
    ensures
        r.0.val * two_to_64() + r.1.val == x.lifted().val * y.lifted().val,
        r.0.val == (x.lifted().val * y.lifted().val) / two_to_64(),
        r.1.val == (x.lifted().val * y.lifted().val) % two_to_64(),
{
    let (x, y) = (x.to_jval(), y.to_jval());
    proof {
        assert(x.val * y.val <= (u64::MAX as int) * (u64::MAX as int)) by (nonlinear_arith)
            requires
                x.val <= u64::MAX,
                y.val <= u64::MAX,
        ;
    }
    let z: u128 = (x.val as u128) * (y.val as u128);
    let hi: u64 = (z / 0x1_0000_0000_0000_0000u128) as u64;
    let lo: u64 = (z % 0x1_0000_0000_0000_0000u128) as u64;
    proof {
        vstd::arithmetic::div_mod::lemma_fundamental_div_mod(z as int, two_to_64());
    }
    (jv(hi), jv(lo))
}

/// The low 64 bits of the widening product: `(x * y) mod 2^64`. The result
/// is the same whether the operands are read as signed or unsigned.
pub fn imul<T1: ToJval<u64>, T2: ToJval<u64>>(x: T1, y: T2) -> (r: b64)
    ensures
        r.val == (x.lifted().val * y.lifted().val) % two_to_64(),
{
    let (x, y) = (x.to_jval(), y.to_jval());
    jv(x.val.wrapping_mul(y.val))
}

/// Bitwise exclusive or.
pub fn xor<T1: ToJval<u64>, T2: ToJval<u64>>(x: T1, y: T2) -> (r: b64)
    ensures
        r.val == x.lifted().val ^ y.lifted().val,
{
    let (x, y) = (x.to_jval(), y.to_jval());
    jv(x.val ^ y.val)
}

/// Bitwise and.
pub fn land<T1: ToJval<u64>, T2: ToJval<u64>>(x: T1, y: T2) -> (r: b64)
    ensures
        r.val == x.lifted().val & y.lifted().val,
{
    let (x, y) = (x.to_jval(), y.to_jval());
    jv(x.val & y.val)
}

/// Bitwise or.
pub fn lor<T1: ToJval<u64>, T2: ToJval<u64>>(x: T1, y: T2) -> (r: b64)
    ensures
        r.val == x.lifted().val | y.lifted().val,
{
    let (x, y) = (x.to_jval(), y.to_jval());
    jv(x.val | y.val)
}

/// Logical shift right: division by 2^y. The shift amount must be below
/// the word width.
pub fn shr<T1: ToJval<u64>, T2: ToJval<u64>>(x: T1, y: T2) -> (r: b64)
    requires
        y.lifted().val < 64,
    ensures
        r.val == x.lifted().val >> y.lifted().val,
        r.val == x.lifted().val as nat / vstd::arithmetic::power2::pow2(y.lifted().val as nat),
{
    let (x, y) = (x.to_jval(), y.to_jval());
    proof {
        vstd::bits::lemma_u64_shr_is_div(x.val, y.val);
    }
    jv(x.val >> y.val)
}

/// Logical shift left: multiplication by 2^y wherever the product still
/// fits the word. The shift amount must be below the word width.
pub fn shl<T1: ToJval<u64>, T2: ToJval<u64>>(x: T1, y: T2) -> (r: b64)
    requires
        y.lifted().val < 64,
    ensures
        r.val == x.lifted().val << y.lifted().val,
        x.lifted().val * vstd::arithmetic::power2::pow2(y.lifted().val as nat) <= u64::MAX
            ==> r.val == x.lifted().val * vstd::arithmetic::power2::pow2(y.lifted().val as nat),
{
    let (x, y) = (x.to_jval(), y.to_jval());
    proof {
        if x.val * vstd::arithmetic::power2::pow2(y.val as nat) <= u64::MAX {
            vstd::bits::lemma_u64_shl_is_mul(x.val, y.val);
        }
    }
    jv(x.val << y.val)
}

} // verus!
