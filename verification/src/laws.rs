//! What holds of the identifiers that a generator issues.
//!
//! The laws are stated over the model of the generator, [`Worker`], and its
//! transition [`Worker::step`], which the contracts of the executable
//! generator refer to.

use vstd::arithmetic::power2::*;
use vstd::prelude::*;

use crate::layout::{field_max, lemma_wrap_congruent, lemma_wrap_in_range, wrap_i64};
use crate::machine::{
    bump_u32, next_turn_back_index, GenState, Partial, Worker, DEFAULT_BASE_TIME,
    DEFAULT_TOP_OVER_COST_COUNT, MAX_TURN_BACK_INDEX,
};
use crate::packing::{lemma_field_sizes, lemma_pack_exact, lemma_pack_fields};

verus! {

/// A request keeps the generator well formed and its configuration in
/// place; a request that has to wait changes nothing and issues nothing, and
/// every other request issues an identifier.
pub proof fn lemma_step_preserves_wf(worker: Worker, now_ms: int)
    requires
        worker.wf(),
    ensures
        worker.step(now_ms).after.wf(),
        worker.step(now_ms).after.config == worker.config,
        worker.must_wait(now_ms) ==> worker.step(now_ms).id is None && worker.step(now_ms).after
            == worker,
        !worker.must_wait(now_ms) ==> worker.step(now_ms).id is Some,
{
    lemma_wrap_congruent(now_ms - worker.config.base_time);
    lemma_wrap_congruent(worker.state.last_tick + 1);
    lemma_wrap_congruent(worker.state.turn_back_tick - 1);
    lemma_wrap_congruent(worker.state.last_tick - 1 - 1);
}

/// The identifier that a request issues is made of the tick and the low
/// field that the model names. While the clock is turned back the low field
/// is an index from 1 to 4, below every sequence number; else it is a
/// sequence number from the configured range.
pub proof fn lemma_issued_identifier(worker: Worker, now_ms: int)
    requires
        worker.wf(),
        !worker.must_wait(now_ms),
    ensures
        worker.step(now_ms).id == Some(
            worker.config.pack(worker.issue_tick(now_ms), worker.issue_low(now_ms)),
        ),
        worker.turns_back(now_ms) ==> 1 <= worker.issue_low(now_ms) <= MAX_TURN_BACK_INDEX,
        !worker.turns_back(now_ms) ==> worker.config.min_seq_num <= worker.issue_low(now_ms)
            <= worker.config.max_seq_num,
        0 <= worker.issue_low(now_ms) < pow2(worker.config.seq_bit_len as nat),
{
    lemma_field_sizes(worker.config);
}

/// Two generators whose identifiers have the same layout and whose worker
/// ids differ never issue the same identifier, whatever their states and
/// whatever the clock reads at either request.
pub proof fn lemma_workers_never_collide(
    first: Worker,
    first_now_ms: int,
    second: Worker,
    second_now_ms: int,
)
    requires
        first.wf(),
        second.wf(),
        first.config.worker_id_bit_len == second.config.worker_id_bit_len,
        first.config.seq_bit_len == second.config.seq_bit_len,
        first.config.worker_id != second.config.worker_id,
        first.step(first_now_ms).id is Some,
        second.step(second_now_ms).id is Some,
    ensures
        first.step(first_now_ms).id != second.step(second_now_ms).id,
{
    lemma_step_preserves_wf(first, first_now_ms);
    lemma_step_preserves_wf(second, second_now_ms);
    lemma_issued_identifier(first, first_now_ms);
    lemma_issued_identifier(second, second_now_ms);
    lemma_pack_fields(first.config, first.issue_tick(first_now_ms), first.issue_low(first_now_ms));
    lemma_pack_fields(
        second.config,
        second.issue_tick(second_now_ms),
        second.issue_low(second_now_ms),
    );
}

/// An identifier issued while the clock is turned back differs from every
/// identifier that a generator with the same configuration issues on the
/// regular path, whatever the ticks: the two kinds differ in the low field.
pub proof fn lemma_turn_back_differs_from_regular(
    turned: Worker,
    turned_now_ms: int,
    regular: Worker,
    regular_now_ms: int,
)
    requires
        turned.wf(),
        regular.wf(),
        turned.config == regular.config,
        turned.turns_back(turned_now_ms),
        !regular.turns_back(regular_now_ms),
        !regular.must_wait(regular_now_ms),
    ensures
        turned.step(turned_now_ms).id != regular.step(regular_now_ms).id,
{
    lemma_issued_identifier(turned, turned_now_ms);
    lemma_issued_identifier(regular, regular_now_ms);
    lemma_pack_fields(
        turned.config,
        turned.issue_tick(turned_now_ms),
        turned.issue_low(turned_now_ms),
    );
    lemma_pack_fields(
        regular.config,
        regular.issue_tick(regular_now_ms),
        regular.issue_low(regular_now_ms),
    );
}

/// A request that finds the clock turned back while no turn is under way
/// begins a turn: it takes the next index, from 1 to 4 and never 0, issues
/// the identifier of the tick below the last one and of that index, and
/// leaves the turn-back tick one below the tick it took. The last tick, the
/// sequence number and the rest of the state stay.
pub proof fn lemma_turn_begins(worker: Worker, now_ms: int)
    requires
        worker.wf(),
        worker.turns_back(now_ms),
        worker.state.turn_back_tick < 1,
    ensures
        1 <= next_turn_back_index(worker.state.turn_back_index) <= MAX_TURN_BACK_INDEX,
        worker.step(now_ms).id == Some(
            worker.config.pack(
                worker.state.last_tick - 1,
                next_turn_back_index(worker.state.turn_back_index),
            ),
        ),
        worker.step(now_ms).after == (Worker {
            state: GenState {
                turn_back_tick: wrap_i64(worker.state.last_tick - 2),
                turn_back_index: next_turn_back_index(worker.state.turn_back_index),
                ..worker.state
            },
            ..worker
        }),
        worker.state.last_tick - 2 >= i64::MIN ==> worker.step(now_ms).after.state.turn_back_tick
            == worker.state.last_tick - 2,
{
    if worker.state.last_tick - 2 >= i64::MIN {
        lemma_wrap_in_range(worker.state.last_tick - 2);
    }
}

/// A request that finds the clock turned back while a turn is under way goes
/// on with it: it issues the identifier of the turn-back tick and of the
/// index of the turn, and moves the turn-back tick down by one. The index,
/// the last tick, the sequence number and the rest of the state stay.
pub proof fn lemma_turn_goes_on(worker: Worker, now_ms: int)
    requires
        worker.wf(),
        worker.turns_back(now_ms),
        worker.state.turn_back_tick >= 1,
    ensures
        1 <= worker.state.turn_back_index <= MAX_TURN_BACK_INDEX,
        worker.step(now_ms).id == Some(
            worker.config.pack(worker.state.turn_back_tick, worker.state.turn_back_index),
        ),
        worker.step(now_ms).after == (Worker {
            state: GenState { turn_back_tick: worker.state.turn_back_tick - 1, ..worker.state },
            ..worker
        }),
{
    lemma_wrap_in_range(worker.state.turn_back_tick - 1);
}

/// The low field of an identifier tells on which path it was issued: while
/// the clock is turned back it holds the index of the turn, from 1 to 4 and
/// so below every sequence number; else it holds a sequence number from the
/// configured range. This holds whatever the tick.
pub proof fn lemma_low_field_tells_the_path(worker: Worker, now_ms: int)
    requires
        worker.wf(),
        !worker.must_wait(now_ms),
    ensures
        worker.step(now_ms).id is Some,
        worker.step(now_ms).id->0 % (pow2(worker.config.seq_bit_len as nat) as int)
            == worker.issue_low(now_ms),
        worker.turns_back(now_ms) ==> worker.issue_low(now_ms)
            == worker.step(now_ms).after.state.turn_back_index && 1 <= worker.issue_low(now_ms)
            <= MAX_TURN_BACK_INDEX < worker.config.min_seq_num,
        !worker.turns_back(now_ms) ==> worker.config.min_seq_num <= worker.issue_low(now_ms)
            <= worker.config.max_seq_num,
{
    lemma_issued_identifier(worker, now_ms);
    lemma_pack_fields(worker.config, worker.issue_tick(now_ms), worker.issue_low(now_ms));
}

/// A request never moves the frontier back, and a request on the regular
/// path issues an identifier at or above the frontier and moves the frontier
/// just past it, as long as the generator's ticks stay in the range that an
/// identifier holds.
pub proof fn lemma_frontier_advances(worker: Worker, now_ms: int)
    requires
        worker.wf(),
        worker.in_range(),
        worker.step(now_ms).after.in_range(),
    ensures
        worker.frontier() <= worker.step(now_ms).after.frontier(),
        !worker.turns_back(now_ms) && !worker.must_wait(now_ms) ==> {
            &&& worker.step(now_ms).id is Some
            &&& worker.frontier() <= worker.step(now_ms).id->0
            &&& worker.step(now_ms).after.frontier() == worker.step(now_ms).id->0 + 1
        },
{
    let config = worker.config;
    let after = worker.step(now_ms).after;
    lemma_step_preserves_wf(worker, now_ms);
    lemma_field_sizes(config);
    if !worker.turns_back(now_ms) && !worker.must_wait(now_ms) {
        lemma_issued_identifier(worker, now_ms);
        lemma_pack_exact(config, worker.issue_tick(now_ms), worker.issue_low(now_ms));
        lemma_wrap_in_range(worker.state.last_tick + 1);
        lemma_wrap_congruent(now_ms - config.base_time);
        let scale = pow2(config.timestamp_shift() as nat) as int;
        let gained = after.state.last_tick - worker.state.last_tick;
        assert(gained == 0 || scale <= gained * scale) by (nonlinear_arith)
            requires
                gained >= 0,
                scale > 0,
        ;
        assert(after.state.last_tick * scale == worker.state.last_tick * scale + gained * scale)
            by (nonlinear_arith)
            requires
                gained == after.state.last_tick - worker.state.last_tick,
        ;
    }
}

/// Without a turned-back clock, each identifier is larger than the one
/// issued before it: of two requests in a row that both take the regular
/// path, the second issues the larger identifier, as long as the generator's
/// ticks stay in the range that an identifier holds.
pub proof fn lemma_next_identifier_is_larger(worker: Worker, first_now_ms: int, second_now_ms: int)
    requires
        worker.wf(),
        worker.in_range(),
        worker.step(first_now_ms).after.in_range(),
        worker.step(first_now_ms).after.step(second_now_ms).after.in_range(),
        !worker.turns_back(first_now_ms),
        !worker.must_wait(first_now_ms),
        !worker.step(first_now_ms).after.turns_back(second_now_ms),
        !worker.step(first_now_ms).after.must_wait(second_now_ms),
    ensures
        worker.step(first_now_ms).id is Some,
        worker.step(first_now_ms).after.step(second_now_ms).id is Some,
        worker.step(first_now_ms).id->0 < worker.step(first_now_ms).after.step(second_now_ms).id->0,
{
    lemma_step_preserves_wf(worker, first_now_ms);
    lemma_frontier_advances(worker, first_now_ms);
    lemma_frontier_advances(worker.step(first_now_ms).after, second_now_ms);
}

/// A request that finds the sequence numbers of the current tick used up,
/// while the clock has not moved past that tick, still issues an identifier:
/// the generator takes the next tick ahead of the clock and starts the
/// sequence over. The identifier lies above the frontier, so above every
/// identifier issued on the regular path before it.
pub proof fn lemma_used_up_sequence_runs_ahead(worker: Worker, now_ms: int)
    requires
        worker.wf(),
        worker.in_range(),
        worker.config.tick_fits(worker.state.last_tick + 1),
        worker.state.current_seq > worker.config.max_seq_num,
        worker.tick_at(now_ms) <= worker.state.last_tick,
        !worker.turns_back(now_ms),
        !worker.must_wait(now_ms),
    ensures
        worker.step(now_ms).id == Some(
            worker.config.compose(worker.state.last_tick + 1, worker.config.min_seq_num),
        ),
        worker.frontier() <= worker.step(now_ms).id->0,
        worker.step(now_ms).after.state.is_over_cost,
        worker.step(now_ms).after.state.last_tick == worker.state.last_tick + 1,
        worker.step(now_ms).after.state.current_seq == worker.config.min_seq_num + 1,
        worker.step(now_ms).after.state.over_cost_count == if worker.state.is_over_cost {
            worker.state.over_cost_count + 1
        } else {
            1
        },
        worker.step(now_ms).after.state.gen_count == if worker.state.is_over_cost {
            bump_u32(worker.state.gen_count)
        } else {
            1
        },
        worker.step(now_ms).after.state.term_index == if worker.state.is_over_cost {
            worker.state.term_index
        } else {
            worker.state.term_index + 1
        },
{
    lemma_field_sizes(worker.config);
    lemma_wrap_in_range(worker.state.last_tick + 1);
    lemma_pack_exact(worker.config, worker.state.last_tick + 1, worker.config.min_seq_num);
    lemma_frontier_advances(worker, now_ms);
}

/// Whether the field `after` reflects what was asked for: the value that was
/// set, or the value `before` where none was set.
pub open spec fn reflects<T>(set: Option<T>, before: Option<T>, after: Option<T>) -> bool {
    match set {
        Some(value) => after == Some(value),
        None => after == before,
    }
}

/// Options that were set successfully are the ones that are read back: each
/// parameter that was set has the value it was set to, where 0 for the base
/// time, for the largest sequence number and for the top over-cost count
/// stands for the default, and each parameter that was not set has the value
/// it had before.
pub proof fn lemma_set_options_round_trip(worker: Worker, partial: Partial, now_ms: int)
    requires
        worker.wf(),
        worker.set_options(partial, now_ms) is Ok,
    ensures
        ({
            let before = worker.config.as_partial();
            let after = worker.set_options(partial, now_ms)->Ok_0.config.as_partial();
            &&& reflects(partial.method, before.method, after.method)
            &&& reflects(partial.worker_id, before.worker_id, after.worker_id)
            &&& reflects(
                partial.worker_id_bit_len,
                before.worker_id_bit_len,
                after.worker_id_bit_len,
            )
            &&& reflects(partial.seq_bit_len, before.seq_bit_len, after.seq_bit_len)
            &&& reflects(partial.min_seq_num, before.min_seq_num, after.min_seq_num)
            &&& reflects(
                if partial.base_time == Some(0int) {
                    Some(DEFAULT_BASE_TIME as int)
                } else {
                    partial.base_time
                },
                before.base_time,
                after.base_time,
            )
            &&& reflects(
                if partial.max_seq_num == Some(0int) {
                    Some(field_max(after.seq_bit_len->0 as nat))
                } else {
                    partial.max_seq_num
                },
                before.max_seq_num,
                after.max_seq_num,
            )
            &&& reflects(
                if partial.top_over_cost_count == Some(0int) {
                    Some(DEFAULT_TOP_OVER_COST_COUNT as int)
                } else {
                    partial.top_over_cost_count
                },
                before.top_over_cost_count,
                after.top_over_cost_count,
            )
        }),
{
}

} // verus!
