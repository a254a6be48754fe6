use jasmin::arith;
use jasmin::mem::{addr_to_idx, MemoryStore};
use jasmin::word::{index, index_assign, jv, Jval, ToJval};

#[test]
fn lift_is_idempotent() {
    let v = jv(5u64);
    assert_eq!(v.to_jval(), v);
    assert_eq!(5u64.to_jval().to_jval(), 5u64.to_jval());
    assert_eq!(7u32.to_jval().to_jval(), 7u32.to_jval());
    assert_eq!(9u16.to_jval().to_jval(), 9u16.to_jval());
    assert_eq!(3u8.to_jval().to_jval(), 3u8.to_jval());
    assert_eq!(true.to_jval().to_jval(), true.to_jval());
}

#[test]
fn lift_per_width() {
    assert_eq!(5u64.to_jval(), Jval { val: 5u64 });
    assert_eq!(false.to_jval(), Jval { val: false });
    assert_eq!(jv(17u64).val, 17u64);
}

#[test]
fn word_indexing() {
    let mut a = vec![jv(10u64), jv(20u64), jv(30u64)];
    assert_eq!(index(&a, jv(1u64)), jv(20u64));
    index_assign(&mut a, jv(2u64), jv(99u64));
    assert_eq!(index(&a, jv(2u64)), jv(99u64));
    assert_eq!(index(&a, jv(0u64)), jv(10u64));
}

#[test]
fn add_wraps_and_carries() {
    // literals lift, so a raw u64 in an operand position is fine
    assert_eq!(arith::add_v(3u64, jv(4u64)).val, 7);
    assert_eq!(arith::add_v(u64::MAX, 1u64).val, 0);
    let (cf, v) = arith::add(u64::MAX, 2u64);
    assert_eq!(cf.val, true);
    assert_eq!(v.val, 1);
    let (cf, v) = arith::add(1u64, 2u64);
    assert_eq!(cf.val, false);
    assert_eq!(v.val, 3);
}

#[test]
fn adc_carries_out_of_saturated_word() {
    let (cf, v) = arith::adc(0xFFFFFFFFFFFFFFFFu64, 0u64, true);
    assert_eq!(cf.val, true);
    assert_eq!(v.val, 0);
    assert_eq!(arith::adc_v(0xFFFFFFFFFFFFFFFFu64, 0u64, true).val, 0);
    let (cf, v) = arith::adc(5u64, 6u64, true);
    assert_eq!(cf.val, false);
    assert_eq!(v.val, 12);
}

#[test]
fn sub_borrows_iff_less() {
    let (bf, v) = arith::sub(3u64, 5u64);
    assert_eq!(bf.val, true);
    assert_eq!(v.val, u64::MAX - 1);
    let (bf, v) = arith::sub(5u64, 3u64);
    assert_eq!(bf.val, false);
    assert_eq!(v.val, 2);
    assert_eq!(arith::sub_v(0u64, 1u64).val, u64::MAX);
}

#[test]
fn sbb_chains_the_borrow() {
    let (bf, v) = arith::sbb(5u64, 5u64, true);
    assert_eq!(bf.val, true);
    assert_eq!(v.val, u64::MAX);
    let (bf, v) = arith::sbb(5u64, 4u64, true);
    assert_eq!(bf.val, false);
    assert_eq!(v.val, 0);
    assert_eq!(arith::sbb_v(5u64, 4u64, true).val, 0);
}

#[test]
fn mul_splits_the_full_product() {
    let two32: u64 = 1 << 32;
    let (hi, lo) = arith::mul(two32, two32);
    assert_eq!(hi.val, 1);
    assert_eq!(lo.val, 0);
    let (hi, lo) = arith::mul(u64::MAX, 2u64);
    assert_eq!(hi.val, 1);
    assert_eq!(lo.val, u64::MAX - 1);
    assert_eq!(arith::imul(u64::MAX, 2u64).val, u64::MAX - 1);
    assert_eq!(arith::imul(6u64, 7u64).val, 42);
}

#[test]
fn bitwise_ops() {
    assert_eq!(arith::xor(0b1100u64, 0b1010u64).val, 0b0110);
    assert_eq!(arith::land(0b1100u64, 0b1010u64).val, 0b1000);
    assert_eq!(arith::lor(0b1100u64, 0b1010u64).val, 0b1110);
}

#[test]
fn shifts() {
    assert_eq!(arith::shr(0b1100u64, 2u64).val, 0b11);
    assert_eq!(arith::shl(0b11u64, 2u64).val, 0b1100);
    assert_eq!(arith::shl(1u64, 63u64).val, 1 << 63);
    assert_eq!(arith::shr(u64::MAX, 63u64).val, 1);
}

#[test]
fn addr_index_is_word_granular() {
    assert_eq!(addr_to_idx(16, 8), 3);
    assert_eq!(addr_to_idx(8, 0), 1);
}

#[test]
fn memory_round_trip() {
    let mut m = MemoryStore::new();
    m.store_mem(16, 8, jv(0xDEADu64));
    assert_eq!(m.load_mem(16, 8).val, 0xDEAD);
    assert!(m.contains_addr(16, 8));
    // the same address index through different base/offset splits
    assert_eq!(m.load_mem(24, 0).val, 0xDEAD);
    // overwriting replaces the word
    m.store_mem(16, 8, jv(7u64));
    assert_eq!(m.load_mem(16, 8).val, 7);
}

#[test]
fn memory_uninitialized_read_fails() {
    let mut m = MemoryStore::new();
    assert_eq!(m.try_load_mem(8, 0), None);
    m.store_mem(8, 0, jv(1u64));
    assert_eq!(m.try_load_mem(8, 0), Some(jv(1u64)));
    assert_eq!(m.try_load_mem(8, 8), None);
    assert!(!m.contains_addr(64, 0));
}
