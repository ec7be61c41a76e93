//! What the bit layout of an identifier guarantees: which fields can be read
//! back from it, when it holds its tick unchanged, and how identifiers are
//! ordered.

use vstd::arithmetic::div_mod::*;
use vstd::arithmetic::power2::*;
use vstd::prelude::*;

use crate::layout::{
    lemma_field_max_bounds, lemma_pow2_fits, lemma_wrap_congruent, lemma_wrap_in_range, two_to_64,
    wrap_i64,
};
use crate::machine::Config;

verus! {

/// The sizes of the fields of a valid configuration: the worker id and every
/// sequence number fit their fields, the two low fields together fill the
/// bits below the tick, and the tick's field ends below the sign bit.
pub proof fn lemma_field_sizes(config: Config)
    requires
        config.valid(),
    ensures
        pow2(config.timestamp_shift() as nat) == pow2(config.worker_id_bit_len as nat) * pow2(
            config.seq_bit_len as nat,
        ),
        pow2(config.seq_bit_len as nat) >= 6,
        pow2(config.worker_id_bit_len as nat) >= 2,
        pow2(config.timestamp_shift() as nat) >= 2 * pow2(config.seq_bit_len as nat),
        1 <= pow2((63 - config.timestamp_shift()) as nat) <= 0x4000_0000_0000_0000,
        0 <= config.worker_id <= pow2(config.worker_id_bit_len as nat) - 1,
        config.max_seq_num <= pow2(config.seq_bit_len as nat) - 1,
        pow2((63 - config.timestamp_shift()) as nat) * pow2(config.timestamp_shift() as nat)
            == 0x8000_0000_0000_0000,
        pow2((64 - config.seq_bit_len) as nat) * pow2(config.seq_bit_len as nat) == two_to_64(),
        pow2((64 - config.timestamp_shift()) as nat) * pow2(config.worker_id_bit_len as nat)
            == pow2((64 - config.seq_bit_len) as nat),
{
    let wbl = config.worker_id_bit_len as nat;
    let sbl = config.seq_bit_len as nat;
    let shift = config.timestamp_shift() as nat;
    lemma_field_max_bounds(wbl);
    lemma_field_max_bounds(sbl);
    lemma_pow2_adds(wbl, sbl);
    lemma_pow2_adds((63 - shift) as nat, shift);
    lemma_pow2_adds((64 - sbl) as nat, sbl);
    lemma_pow2_adds((64 - shift) as nat, wbl);
    lemma2_to64();
    lemma2_to64_rest();
    if wbl > 1 {
        lemma_pow2_strictly_increases(1, wbl);
    }
    lemma_pow2_fits((63 - shift) as nat);
    let q = pow2(sbl) as int;
    let r = pow2(wbl) as int;
    assert(r * q >= 2 * q) by (nonlinear_arith)
        requires
            r >= 2,
            q > 0,
    ;
}

/// The worker id and a low field, put together, stay below the tick's field.
pub proof fn lemma_low_fields_bound(config: Config, low: int)
    requires
        config.valid(),
        0 <= low < pow2(config.seq_bit_len as nat),
    ensures
        0 <= config.worker_id * pow2(config.seq_bit_len as nat) + low < pow2(
            config.timestamp_shift() as nat,
        ),
{
    lemma_field_sizes(config);
    let q = pow2(config.seq_bit_len as nat) as int;
    let r = pow2(config.worker_id_bit_len as nat) as int;
    let w = config.worker_id;
    assert(0 <= w * q && w * q + q <= r * q) by (nonlinear_arith)
        requires
            0 <= w <= r - 1,
            q > 0,
    ;
}

/// An identifier whose tick fits holds its fields unchanged: wrapping does
/// nothing to it, and it is negative exactly if its tick is.
pub proof fn lemma_pack_exact(config: Config, tick: int, low: int)
    requires
        config.valid(),
        config.tick_fits(tick),
        0 <= low < pow2(config.seq_bit_len as nat),
    ensures
        config.pack(tick, low) == config.compose(tick, low),
        i64::MIN <= config.compose(tick, low) <= i64::MAX,
        config.compose(tick, low) < 0 <==> tick < 0,
{
    lemma_field_sizes(config);
    lemma_low_fields_bound(config, low);
    let p = pow2(config.timestamp_shift() as nat) as int;
    let top = pow2((63 - config.timestamp_shift()) as nat) as int;
    assert(-(top * p) <= tick * p && tick * p + p <= top * p && (tick >= 0 ==> tick * p >= 0) && (
    tick < 0 ==> tick * p + p <= 0)) by (nonlinear_arith)
        requires
            -top <= tick <= top - 1,
            p > 0,
    ;
    lemma_wrap_in_range(config.compose(tick, low));
}

/// Identifiers are ordered by their ticks first and by their low fields
/// second.
pub proof fn lemma_compose_order(config: Config, tick1: int, low1: int, tick2: int, low2: int)
    requires
        config.valid(),
        0 <= low1 < pow2(config.seq_bit_len as nat),
        0 <= low2 < pow2(config.seq_bit_len as nat),
    ensures
        config.compose(tick1, low1) < config.compose(tick2, low2) <==> (tick1 < tick2 || (tick1
            == tick2 && low1 < low2)),
        config.compose(tick1, low1) == config.compose(tick2, low2) <==> (tick1 == tick2 && low1
            == low2),
{
    lemma_field_sizes(config);
    lemma_low_fields_bound(config, low1);
    lemma_low_fields_bound(config, low2);
    let p = pow2(config.timestamp_shift() as nat) as int;
    if tick1 < tick2 {
        assert(tick1 * p + p <= tick2 * p) by (nonlinear_arith)
            requires
                tick1 + 1 <= tick2,
                p > 0,
        ;
    } else if tick2 < tick1 {
        assert(tick2 * p + p <= tick1 * p) by (nonlinear_arith)
            requires
                tick2 + 1 <= tick1,
                p > 0,
        ;
    }
}

/// The low field and the worker id can be read back from every identifier,
/// whatever its tick: the low `seq_bit_len` bits hold the low field, the
/// `worker_id_bit_len` bits above them the worker id.
pub proof fn lemma_pack_fields(config: Config, tick: int, low: int)
    requires
        config.valid(),
        0 <= low < pow2(config.seq_bit_len as nat),
    ensures
        config.pack(tick, low) % (pow2(config.seq_bit_len as nat) as int) == low,
        (config.pack(tick, low) / (pow2(config.seq_bit_len as nat) as int)) % (pow2(
            config.worker_id_bit_len as nat,
        ) as int) == config.worker_id,
{
    lemma_field_sizes(config);
    let q = pow2(config.seq_bit_len as nat) as int;
    let r = pow2(config.worker_id_bit_len as nat) as int;
    let p = pow2(config.timestamp_shift() as nat) as int;
    let above_low = pow2((64 - config.seq_bit_len) as nat) as int;
    let above_worker = pow2((64 - config.timestamp_shift()) as nat) as int;
    let w = config.worker_id;
    let raw = config.compose(tick, low);
    lemma_wrap_congruent(raw);
    let k = choose|k: int| wrap_i64(raw) == #[trigger] (two_to_64() * k) + raw;
    let id = config.pack(tick, low);
    let upper = tick * r + w + above_low * k;
    assert(id == upper * q + low) by (nonlinear_arith)
        requires
            id == two_to_64() * k + tick * p + w * q + low,
            p == r * q,
            above_low * q == two_to_64(),
            upper == tick * r + w + above_low * k,
    ;
    lemma_fundamental_div_mod_converse(id, q, upper, low);
    let top = tick + above_worker * k;
    assert(upper == top * r + w) by (nonlinear_arith)
        requires
            upper == tick * r + w + above_low * k,
            above_worker * r == above_low,
            top == tick + above_worker * k,
    ;
    lemma_fundamental_div_mod_converse(upper, r, top, w);
}

} // verus!
