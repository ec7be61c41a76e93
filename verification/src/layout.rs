//! The numbers behind the bit layout of an identifier: powers of two, the
//! largest value that a field of some width holds, and two's-complement
//! wrapping into 64 bits.

use vstd::arithmetic::div_mod::*;
use vstd::arithmetic::mul::*;
use vstd::arithmetic::power2::*;
use vstd::bits::*;
use vstd::prelude::*;

verus! {

/// Two to the power of 64.
pub open spec fn two_to_64() -> int {
    0x1_0000_0000_0000_0000
}

/// The value that two's-complement arithmetic on 64 bits keeps of `x`: the
/// one integer in the range of `i64` that differs from `x` by a multiple of
/// `2^64`.
pub open spec fn wrap_i64(x: int) -> int {
    let low = x % two_to_64();
    if low > i64::MAX {
        low - two_to_64()
    } else {
        low
    }
}

/// The largest value that a field of `bits` bits holds, `2^bits - 1`; for a
/// field of no bits, 63 stands in for it.
pub open spec fn field_max(bits: nat) -> int {
    if pow2(bits) - 1 == 0 {
        63
    } else {
        pow2(bits) - 1
    }
}

/// A value in the range of `i64` is what wrapping keeps of it.
pub proof fn lemma_wrap_in_range(x: int)
    requires
        i64::MIN <= x <= i64::MAX,
    ensures
        wrap_i64(x) == x,
{
    if x >= 0 {
        lemma_small_mod(x as nat, two_to_64() as nat);
    } else {
        lemma_small_mod((x + two_to_64()) as nat, two_to_64() as nat);
        lemma_mod_add_multiples_vanish(x, two_to_64());
    }
}

/// Wrapping stays in the range of `i64` and changes a value by a multiple of
/// `2^64` only.
pub proof fn lemma_wrap_congruent(x: int)
    ensures
        i64::MIN <= wrap_i64(x) <= i64::MAX,
        wrap_i64(x) % two_to_64() == x % two_to_64(),
        exists|k: int| wrap_i64(x) == #[trigger] (two_to_64() * k) + x,
{
    let m = two_to_64();
    lemma_mod_bound(x, m);
    lemma_fundamental_div_mod(x, m);
    let low = x % m;
    if low > i64::MAX {
        lemma_mod_sub_multiples_vanish(low, m);
        lemma_mod_twice(x, m);
        let k = -(x / m) - 1;
        assert(wrap_i64(x) == m * k + x);
    } else {
        lemma_mod_twice(x, m);
        let k = -(x / m);
        assert(wrap_i64(x) == m * k + x);
    }
}

/// Wrapping a sum after wrapping one of its terms gives what wrapping the
/// sum gives.
pub proof fn lemma_wrap_add(a: int, b: int)
    ensures
        wrap_i64(wrap_i64(a) + b) == wrap_i64(a + b),
{
    let m = two_to_64();
    lemma_wrap_congruent(a);
    let k = choose|k: int| wrap_i64(a) == #[trigger] (m * k) + a;
    lemma_mod_multiples_vanish(k, a + b, m);
    assert(m * k + (a + b) == wrap_i64(a) + b);
}

/// `i64::wrapping_add` keeps of a sum what wrapping keeps of it.
pub proof fn lemma_wrapping_add(x: i64, y: i64)
    ensures
        vstd::wrapping::i64_specs::wrapping_add(x, y) == wrap_i64(x + y),
{
    let sum = x + y;
    if sum > i64::MAX {
        lemma_wrap_in_range(sum - two_to_64());
        lemma_mod_sub_multiples_vanish(sum, two_to_64());
    } else if sum < i64::MIN {
        lemma_wrap_in_range(sum + two_to_64());
        lemma_mod_add_multiples_vanish(sum, two_to_64());
    } else {
        lemma_wrap_in_range(sum);
    }
}

/// `i64::wrapping_sub` keeps of a difference what wrapping keeps of it.
pub proof fn lemma_wrapping_sub(x: i64, y: i64)
    ensures
        vstd::wrapping::i64_specs::wrapping_sub(x, y) == wrap_i64(x - y),
{
    let difference = x - y;
    if difference > i64::MAX {
        lemma_wrap_in_range(difference - two_to_64());
        lemma_mod_sub_multiples_vanish(difference, two_to_64());
    } else if difference < i64::MIN {
        lemma_wrap_in_range(difference + two_to_64());
        lemma_mod_add_multiples_vanish(difference, two_to_64());
    } else {
        lemma_wrap_in_range(difference);
    }
}

/// `i64::wrapping_mul` keeps of a product what wrapping keeps of it.
pub proof fn lemma_wrapping_mul(x: i64, y: i64)
    ensures
        vstd::wrapping::i64_specs::wrapping_mul(x, y) == wrap_i64(x * y),
{
}

/// The powers of two up to the 63rd grow with the exponent and fit in `i64`.
pub proof fn lemma_pow2_fits(bits: nat)
    requires
        bits <= 62,
    ensures
        1 <= pow2(bits) <= 0x4000_0000_0000_0000,
{
    lemma_pow2_pos(bits);
    lemma2_to64();
    lemma2_to64_rest();
    if bits < 62 {
        lemma_pow2_strictly_increases(bits, 62);
    }
}

/// A field of at most 22 bits holds values below `2^22`.
pub proof fn lemma_field_max_bounds(bits: nat)
    requires
        bits <= 22,
    ensures
        1 <= pow2(bits) <= 0x40_0000,
        1 <= field_max(bits) < 0x40_0000,
        bits >= 1 ==> field_max(bits) == pow2(bits) - 1,
{
    lemma_pow2_pos(bits);
    lemma2_to64();
    if bits < 22 {
        lemma_pow2_strictly_increases(bits, 22);
    }
    if bits >= 1 {
        if bits > 1 {
            lemma_pow2_strictly_increases(1, bits);
        }
    }
}

/// Two to the power of `bits`.
pub fn power_of_two(bits: u8) -> (power: u64)
    requires
        bits <= 62,
    ensures
        power == pow2(bits as nat),
{
    proof {
        lemma_pow2_fits(bits as nat);
        lemma_u64_shl_is_mul(1u64, bits as u64);
    }
    1u64 << (bits as u64)
}

/// The largest value that a field of `bits` bits holds.
pub fn field_max_value(bits: u8) -> (max: u32)
    requires
        bits <= 22,
    ensures
        max == field_max(bits as nat),
{
    proof {
        lemma_field_max_bounds(bits as nat);
    }
    let max = (power_of_two(bits) - 1) as u32;
    if max == 0 {
        63
    } else {
        max
    }
}

} // verus!
