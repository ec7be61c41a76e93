//! What holds of the identifiers that one generator issues over a run of
//! requests, between two changes of its options.
//!
//! A run is given by the generator at its start and by the readings of the
//! clock at its requests, in order.

use vstd::arithmetic::div_mod::{lemma_fundamental_div_mod, lemma_mod_bound};
use vstd::prelude::*;

use crate::laws::{
    lemma_frontier_advances, lemma_issued_identifier, lemma_step_preserves_wf,
    lemma_turn_back_differs_from_regular, lemma_turn_goes_on,
};
use crate::layout::lemma_wrap_in_range;
use crate::machine::{next_turn_back_index, GenState, Step, Worker};
use crate::packing::{lemma_compose_order, lemma_field_sizes, lemma_pack_exact};

verus! {

/// The generator after the first `count` requests of the run.
pub open spec fn after_requests(worker: Worker, clock: Seq<int>, count: nat) -> Worker
    decreases count,
{
    if count == 0 {
        worker
    } else {
        after_requests(worker, clock, (count - 1) as nat).step(clock[count - 1]).after
    }
}

/// What the request at position `i` of the run does.
pub open spec fn request(worker: Worker, clock: Seq<int>, i: int) -> Step {
    after_requests(worker, clock, i as nat).step(clock[i])
}

/// Whether the request at position `i` of the run finds the clock turned
/// back.
pub open spec fn turned_back(worker: Worker, clock: Seq<int>, i: int) -> bool {
    after_requests(worker, clock, i as nat).turns_back(clock[i])
}

/// The tick of the identifier that the request at position `i` issues.
pub open spec fn issue_tick(worker: Worker, clock: Seq<int>, i: int) -> int {
    after_requests(worker, clock, i as nat).issue_tick(clock[i])
}

/// The low field of the identifier that the request at position `i` issues.
pub open spec fn issue_low(worker: Worker, clock: Seq<int>, i: int) -> int {
    after_requests(worker, clock, i as nat).issue_low(clock[i])
}

/// Whether, all through the run, the ticks that the generator holds are ones
/// that an identifier holds unchanged.
pub open spec fn stays_in_range(worker: Worker, clock: Seq<int>) -> bool {
    forall|count: nat|
        count <= clock.len() ==> (#[trigger] after_requests(worker, clock, count)).in_range()
}

/// Whether the request at position `i` begins a turn: the clock is turned
/// back and no turn is under way, so the next index is taken.
pub open spec fn begins_turn(worker: Worker, clock: Seq<int>, i: int) -> bool {
    &&& turned_back(worker, clock, i)
    &&& after_requests(worker, clock, i as nat).state.turn_back_tick < 1
}

/// The number of turns that the first `count` requests of the run begin.
pub open spec fn turns_begun(worker: Worker, clock: Seq<int>, count: nat) -> nat
    decreases count,
{
    if count == 0 {
        0
    } else {
        turns_begun(worker, clock, (count - 1) as nat) + if begins_turn(
            worker,
            clock,
            count - 1,
        ) {
            1nat
        } else {
            0nat
        }
    }
}

/// The number of turns that the run has a part in: those that it begins,
/// and the one that is under way at its start, if one is.
pub open spec fn turns_of_run(worker: Worker, clock: Seq<int>) -> nat {
    turns_begun(worker, clock, clock.len()) + if worker.state.turn_back_tick >= 1 {
        1nat
    } else {
        0nat
    }
}

/// The index that is reached from `index` by beginning `turns` turns.
pub open spec fn index_after_turns(index: int, turns: nat) -> int
    decreases turns,
{
    if turns == 0 {
        index
    } else {
        next_turn_back_index(index_after_turns(index, (turns - 1) as nat))
    }
}

/// All through a run the generator stays well formed and keeps its
/// configuration.
pub proof fn lemma_run_preserves_wf(worker: Worker, clock: Seq<int>, count: nat)
    requires
        worker.wf(),
    ensures
        after_requests(worker, clock, count).wf(),
        after_requests(worker, clock, count).config == worker.config,
    decreases count,
{
    if count > 0 {
        lemma_run_preserves_wf(worker, clock, (count - 1) as nat);
        lemma_step_preserves_wf(
            after_requests(worker, clock, (count - 1) as nat),
            clock[count - 1],
        );
    }
}

/// A request moves the last tick up to the clock or one tick further, and
/// never back, as long as it starts in range.
proof fn lemma_last_tick_moves_up(worker: Worker, now_ms: int)
    requires
        worker.wf(),
        worker.in_range(),
    ensures
        worker.state.last_tick <= worker.step(now_ms).after.state.last_tick,
        worker.step(now_ms).after.state.last_tick <= worker.state.last_tick + 1
            || worker.step(now_ms).after.state.last_tick == worker.tick_at(now_ms),
        worker.step(now_ms).after.state.turn_back_tick <= worker.state.turn_back_tick
            || worker.step(now_ms).after.state.turn_back_tick < worker.state.last_tick,
{
    lemma_field_sizes(worker.config);
    lemma_wrap_in_range(worker.state.last_tick + 1);
    lemma_wrap_in_range(worker.state.last_tick - 2);
    if worker.state.turn_back_tick >= 1 {
        lemma_wrap_in_range(worker.state.turn_back_tick - 1);
    }
}

/// The first `count` requests of a run whose clock stays at or below
/// `bound` leave the last tick at most `count` ticks above `bound`.
proof fn lemma_bounded_run(worker: Worker, clock: Seq<int>, bound: int, count: nat)
    requires
        worker.wf(),
        worker.in_range(),
        worker.state.last_tick <= bound,
        forall|k: int| 0 <= k < clock.len() ==> worker.tick_at(#[trigger] clock[k]) <= bound,
        worker.config.tick_fits(bound + clock.len()),
        count <= clock.len(),
    ensures
        after_requests(worker, clock, count).in_range(),
        worker.state.last_tick <= after_requests(worker, clock, count).state.last_tick <= bound
            + count,
    decreases count,
{
    if count > 0 {
        let before = after_requests(worker, clock, (count - 1) as nat);
        lemma_bounded_run(worker, clock, bound, (count - 1) as nat);
        lemma_run_preserves_wf(worker, clock, (count - 1) as nat);
        lemma_last_tick_moves_up(before, clock[count - 1]);
        assert(before.tick_at(clock[count - 1]) == worker.tick_at(clock[count - 1]));
    }
}

/// A run stays in range where it starts in range and leaves room above the
/// clock for one tick for each request: no request moves the generator more
/// than one tick above the clock and the ticks it had before.
pub proof fn lemma_bounded_run_stays_in_range(worker: Worker, clock: Seq<int>, bound: int)
    requires
        worker.wf(),
        worker.in_range(),
        worker.state.last_tick <= bound,
        forall|k: int| 0 <= k < clock.len() ==> worker.tick_at(#[trigger] clock[k]) <= bound,
        worker.config.tick_fits(bound + clock.len()),
    ensures
        stays_in_range(worker, clock),
{
    assert forall|count: nat| count <= clock.len() implies (#[trigger] after_requests(
        worker,
        clock,
        count,
    )).in_range() by {
        lemma_bounded_run(worker, clock, bound, count);
    }
}

/// An identifier issued on the regular path lies below the frontier of the
/// generator at every later point of the run.
proof fn lemma_below_frontier(worker: Worker, clock: Seq<int>, i: int, count: nat)
    requires
        worker.wf(),
        stays_in_range(worker, clock),
        0 <= i < count <= clock.len(),
        !turned_back(worker, clock, i),
        request(worker, clock, i).id is Some,
    ensures
        request(worker, clock, i).id->0 < after_requests(worker, clock, count).frontier(),
    decreases count,
{
    let before = after_requests(worker, clock, (count - 1) as nat);
    lemma_run_preserves_wf(worker, clock, (count - 1) as nat);
    assert(before.in_range());
    assert(after_requests(worker, clock, count).in_range());
    lemma_frontier_advances(before, clock[count - 1]);
    lemma_step_preserves_wf(before, clock[count - 1]);
    if count - 1 > i {
        lemma_below_frontier(worker, clock, i, (count - 1) as nat);
    }
}

/// Over a run, the identifiers issued on the regular path increase: of two
/// requests that do not find the clock turned back, the later one issues the
/// larger identifier, as long as the generator's ticks stay in the range that
/// an identifier holds. Requests that find the clock turned back may lie
/// between the two.
pub proof fn lemma_regular_identifiers_increase(worker: Worker, clock: Seq<int>, i: int, j: int)
    requires
        worker.wf(),
        stays_in_range(worker, clock),
        0 <= i < j < clock.len(),
        !turned_back(worker, clock, i),
        !turned_back(worker, clock, j),
        request(worker, clock, i).id is Some,
        request(worker, clock, j).id is Some,
    ensures
        request(worker, clock, i).id->0 < request(worker, clock, j).id->0,
{
    let before = after_requests(worker, clock, j as nat);
    lemma_below_frontier(worker, clock, i, j as nat);
    lemma_run_preserves_wf(worker, clock, j as nat);
    assert(before.in_range());
    assert(after_requests(worker, clock, (j + 1) as nat).in_range());
    lemma_step_preserves_wf(before, clock[j]);
    lemma_frontier_advances(before, clock[j]);
}

/// Whether the clock never falls over the run: no reading stands for a
/// lower tick than an earlier one, and the first does not lie behind a
/// generator that does not run ahead.
pub open spec fn clock_never_falls(worker: Worker, clock: Seq<int>) -> bool {
    &&& forall|i: int, j: int|
        0 <= i <= j < clock.len() ==> worker.tick_at(#[trigger] clock[i]) <= worker.tick_at(
            #[trigger] clock[j],
        )
    &&& clock.len() > 0 && !worker.state.is_over_cost ==> worker.state.last_tick
        <= worker.tick_at(clock[0])
}

/// While the clock never falls, a generator that does not run ahead is at
/// most at the tick of the reading that comes next.
proof fn lemma_steady_clock_keeps_up(worker: Worker, clock: Seq<int>, count: nat)
    requires
        worker.wf(),
        clock_never_falls(worker, clock),
        count < clock.len(),
    ensures
        !after_requests(worker, clock, count).state.is_over_cost ==> after_requests(
            worker,
            clock,
            count,
        ).state.last_tick <= worker.tick_at(clock[count as int]),
    decreases count,
{
    if count > 0 {
        let before = after_requests(worker, clock, (count - 1) as nat);
        lemma_steady_clock_keeps_up(worker, clock, (count - 1) as nat);
        lemma_run_preserves_wf(worker, clock, (count - 1) as nat);
        assert(before.tick_at(clock[count - 1]) == worker.tick_at(clock[count - 1]));
        assert(worker.tick_at(clock[count - 1]) <= worker.tick_at(clock[count as int]));
    }
}

/// While the clock never falls, no request finds it turned back.
pub proof fn lemma_steady_clock_never_turns_back(worker: Worker, clock: Seq<int>, i: int)
    requires
        worker.wf(),
        clock_never_falls(worker, clock),
        0 <= i < clock.len(),
    ensures
        !turned_back(worker, clock, i),
{
    lemma_steady_clock_keeps_up(worker, clock, i as nat);
    lemma_run_preserves_wf(worker, clock, i as nat);
}

/// While the clock never falls, each identifier is larger than every
/// identifier issued before it, as long as the generator's ticks stay in the
/// range that an identifier holds.
pub proof fn lemma_steady_clock_identifiers_increase(
    worker: Worker,
    clock: Seq<int>,
    i: int,
    j: int,
)
    requires
        worker.wf(),
        stays_in_range(worker, clock),
        clock_never_falls(worker, clock),
        0 <= i < j < clock.len(),
        request(worker, clock, i).id is Some,
        request(worker, clock, j).id is Some,
    ensures
        request(worker, clock, i).id->0 < request(worker, clock, j).id->0,
{
    lemma_steady_clock_never_turns_back(worker, clock, i);
    lemma_steady_clock_never_turns_back(worker, clock, j);
    lemma_regular_identifiers_increase(worker, clock, i, j);
}

/// The identifier issued while the clock is turned back holds its tick and
/// its index unchanged, as long as the generator's ticks stay in range.
proof fn lemma_turn_back_exact(worker: Worker, clock: Seq<int>, i: int)
    requires
        worker.wf(),
        stays_in_range(worker, clock),
        0 <= i < clock.len(),
        turned_back(worker, clock, i),
    ensures
        request(worker, clock, i).id == Some(
            worker.config.compose(issue_tick(worker, clock, i), issue_low(worker, clock, i)),
        ),
        1 <= issue_low(worker, clock, i) <= 4,
        after_requests(worker, clock, (i + 1) as nat).state.turn_back_tick == issue_tick(
            worker,
            clock,
            i,
        ) - 1,
        after_requests(worker, clock, (i + 1) as nat).state.turn_back_index == issue_low(
            worker,
            clock,
            i,
        ),
{
    let before = after_requests(worker, clock, i as nat);
    lemma_run_preserves_wf(worker, clock, i as nat);
    assert(before.in_range());
    lemma_issued_identifier(before, clock[i]);
    lemma_field_sizes(worker.config);
    lemma_pack_exact(worker.config, before.issue_tick(clock[i]), before.issue_low(clock[i]));
    lemma_wrap_in_range(before.issue_tick(clock[i]) - 1);
}

/// Two requests of a run issue the same identifier only if both find the
/// clock turned back and both take the same tick and the same index: every
/// other pair of identifiers differs, as long as the generator's ticks stay
/// in the range that an identifier holds.
pub proof fn lemma_only_turn_back_identifiers_repeat(
    worker: Worker,
    clock: Seq<int>,
    i: int,
    j: int,
)
    requires
        worker.wf(),
        stays_in_range(worker, clock),
        0 <= i < j < clock.len(),
        request(worker, clock, i).id is Some,
        request(worker, clock, i).id == request(worker, clock, j).id,
    ensures
        turned_back(worker, clock, i),
        turned_back(worker, clock, j),
        issue_tick(worker, clock, i) == issue_tick(worker, clock, j),
        issue_low(worker, clock, i) == issue_low(worker, clock, j),
{
    let first = after_requests(worker, clock, i as nat);
    let second = after_requests(worker, clock, j as nat);
    lemma_run_preserves_wf(worker, clock, i as nat);
    lemma_run_preserves_wf(worker, clock, j as nat);
    lemma_step_preserves_wf(first, clock[i]);
    lemma_step_preserves_wf(second, clock[j]);
    if turned_back(worker, clock, i) && turned_back(worker, clock, j) {
        lemma_turn_back_exact(worker, clock, i);
        lemma_turn_back_exact(worker, clock, j);
        lemma_field_sizes(worker.config);
        lemma_compose_order(
            worker.config,
            issue_tick(worker, clock, i),
            issue_low(worker, clock, i),
            issue_tick(worker, clock, j),
            issue_low(worker, clock, j),
        );
    } else if turned_back(worker, clock, i) {
        lemma_turn_back_differs_from_regular(first, clock[i], second, clock[j]);
    } else if turned_back(worker, clock, j) {
        lemma_turn_back_differs_from_regular(second, clock[j], first, clock[i]);
    } else {
        lemma_regular_identifiers_increase(worker, clock, i, j);
    }
}

/// While every request finds the clock turned back and a turn is under way
/// with ticks enough left, the first `count` requests move the turn-back
/// tick down by `count` and change nothing else.
proof fn lemma_turn_steps_down(worker: Worker, clock: Seq<int>, count: nat)
    requires
        worker.wf(),
        !worker.state.is_over_cost,
        count <= clock.len(),
        count <= worker.state.turn_back_tick,
        forall|k: int|
            0 <= k < count ==> worker.tick_at(#[trigger] clock[k]) < worker.state.last_tick,
    ensures
        after_requests(worker, clock, count) == (Worker {
            state: GenState {
                turn_back_tick: worker.state.turn_back_tick - count,
                ..worker.state
            },
            ..worker
        }),
    decreases count,
{
    if count > 0 {
        let before = after_requests(worker, clock, (count - 1) as nat);
        lemma_turn_steps_down(worker, clock, (count - 1) as nat);
        lemma_run_preserves_wf(worker, clock, (count - 1) as nat);
        assert(before.tick_at(clock[count - 1]) == worker.tick_at(clock[count - 1]));
        lemma_turn_goes_on(before, clock[count - 1]);
    }
}

/// A turn under way counts down: while every request finds the clock turned
/// back, the request at position `i` of the run issues the identifier of the
/// tick `i` below the turn-back tick at the start and of the index of the
/// turn, as long as the turn has ticks above 0 left for it. The index, the
/// last tick and the sequence number stay all the while.
pub proof fn lemma_turn_under_way_counts_down(worker: Worker, clock: Seq<int>, i: int)
    requires
        worker.wf(),
        !worker.state.is_over_cost,
        0 <= i < clock.len(),
        i < worker.state.turn_back_tick,
        forall|k: int| 0 <= k <= i ==> worker.tick_at(#[trigger] clock[k]) < worker.state.last_tick,
    ensures
        turned_back(worker, clock, i),
        request(worker, clock, i).id == Some(
            worker.config.pack(worker.state.turn_back_tick - i, worker.state.turn_back_index),
        ),
        after_requests(worker, clock, (i + 1) as nat) == (Worker {
            state: GenState {
                turn_back_tick: worker.state.turn_back_tick - (i + 1),
                ..worker.state
            },
            ..worker
        }),
{
    lemma_turn_steps_down(worker, clock, i as nat);
    lemma_turn_steps_down(worker, clock, (i + 1) as nat);
    let before = after_requests(worker, clock, i as nat);
    lemma_run_preserves_wf(worker, clock, i as nat);
    assert(before.tick_at(clock[i]) == worker.tick_at(clock[i]));
    lemma_turn_goes_on(before, clock[i]);
}

/// The identifiers of a turn under way are pairwise distinct: two requests
/// of a run in which every request finds the clock turned back, and the turn
/// has ticks above 0 left for each, issue different identifiers, as long as
/// the turn-back tick at the start is one that an identifier holds unchanged.
pub proof fn lemma_turn_under_way_identifiers_differ(
    worker: Worker,
    clock: Seq<int>,
    i: int,
    j: int,
)
    requires
        worker.wf(),
        !worker.state.is_over_cost,
        0 <= i < j < clock.len(),
        j < worker.state.turn_back_tick,
        worker.config.tick_fits(worker.state.turn_back_tick),
        forall|k: int| 0 <= k <= j ==> worker.tick_at(#[trigger] clock[k]) < worker.state.last_tick,
    ensures
        request(worker, clock, i).id is Some,
        request(worker, clock, j).id is Some,
        request(worker, clock, i).id != request(worker, clock, j).id,
{
    let index = worker.state.turn_back_index;
    let tick = worker.state.turn_back_tick;
    lemma_turn_under_way_counts_down(worker, clock, i);
    lemma_turn_under_way_counts_down(worker, clock, j);
    lemma_field_sizes(worker.config);
    lemma_pack_exact(worker.config, tick - i, index);
    lemma_pack_exact(worker.config, tick - j, index);
    lemma_compose_order(worker.config, tick - i, index, tick - j, index);
}

/// The number of identifiers that one tick holds: one for each sequence
/// number of the configured range.
pub open spec fn tick_capacity(worker: Worker) -> int {
    worker.config.max_seq_num - worker.config.min_seq_num + 1
}

/// Whether every reading of the clock in the run stands for `tick`.
pub open spec fn clock_stands_at(worker: Worker, clock: Seq<int>, tick: int) -> bool {
    forall|k: int| 0 <= k < clock.len() ==> worker.tick_at(#[trigger] clock[k]) == tick
}

/// While the clock stands at a tick above the last one, the request that
/// uses up the sequence number `r` places above the smallest one, `ahead`
/// ticks ahead of the clock, is the one at position `ahead * capacity + r`,
/// and leaves the generator at that tick with the next sequence number.
proof fn lemma_standing_clock_state(
    worker: Worker,
    clock: Seq<int>,
    tick: int,
    ahead: int,
    r: int,
    count: nat,
)
    requires
        worker.wf(),
        !worker.state.is_over_cost,
        worker.state.last_tick < tick,
        clock_stands_at(worker, clock, tick),
        0 <= r < tick_capacity(worker),
        0 <= ahead < worker.config.top_over_cost_count,
        count == ahead * tick_capacity(worker) + r + 1,
        count <= clock.len(),
        tick + ahead <= i64::MAX,
    ensures
        request(worker, clock, count - 1).id == Some(
            worker.config.pack(tick + ahead, worker.config.min_seq_num + r),
        ),
        after_requests(worker, clock, count).wf(),
        after_requests(worker, clock, count).config == worker.config,
        after_requests(worker, clock, count).state.last_tick == tick + ahead,
        after_requests(worker, clock, count).state.current_seq == worker.config.min_seq_num + r
            + 1,
        after_requests(worker, clock, count).state.is_over_cost == (ahead >= 1),
        ahead >= 1 ==> after_requests(worker, clock, count).state.over_cost_count == ahead,
    decreases count,
{
    let capacity = tick_capacity(worker);
    let before = after_requests(worker, clock, (count - 1) as nat);
    assert(worker.tick_at(clock[count - 1]) == tick);
    if ahead == 0 && r == 0 {
        assert(count == 1) by (nonlinear_arith)
            requires
                count == ahead * capacity + r + 1,
                ahead == 0,
                r == 0,
        ;
        assert(before == worker);
    } else if r > 0 {
        lemma_standing_clock_state(worker, clock, tick, ahead, r - 1, (count - 1) as nat);
    } else {
        assert(count - 1 == (ahead - 1) * capacity + (capacity - 1) + 1) by (nonlinear_arith)
            requires
                count == ahead * capacity + r + 1,
                r == 0,
        ;
        lemma_standing_clock_state(
            worker,
            clock,
            tick,
            ahead - 1,
            capacity - 1,
            (count - 1) as nat,
        );
        lemma_wrap_in_range(tick + ahead);
    }
    assert(before.tick_at(clock[count - 1]) == tick);
    lemma_step_preserves_wf(before, clock[count - 1]);
}

/// More requests in one millisecond than a tick holds identifiers for still
/// succeed, each with the identifier that follows in the order of tick and
/// sequence number: while the clock stands at a tick above the last one, the
/// request at position `k` issues the identifier of the tick `k / capacity`
/// ahead of the clock and of the sequence number `k % capacity` above the
/// smallest one, as long as the generator has not run ahead as far as it
/// may.
pub proof fn lemma_standing_clock_identifier(worker: Worker, clock: Seq<int>, tick: int, k: int)
    requires
        worker.wf(),
        !worker.state.is_over_cost,
        worker.state.last_tick < tick,
        clock_stands_at(worker, clock, tick),
        0 <= k < clock.len(),
        k < tick_capacity(worker) * worker.config.top_over_cost_count,
        tick + k / tick_capacity(worker) <= i64::MAX,
    ensures
        request(worker, clock, k).id == Some(
            worker.config.pack(
                tick + k / tick_capacity(worker),
                worker.config.min_seq_num + k % tick_capacity(worker),
            ),
        ),
{
    let capacity = tick_capacity(worker);
    let ahead = k / capacity;
    let r = k % capacity;
    let top = worker.config.top_over_cost_count;
    lemma_fundamental_div_mod(k, capacity);
    lemma_mod_bound(k, capacity);
    assert(0 <= ahead < top) by (nonlinear_arith)
        requires
            k == capacity * ahead + r,
            0 <= r < capacity,
            0 <= k < capacity * top,
    ;
    assert(k + 1 == ahead * capacity + r + 1) by (nonlinear_arith)
        requires
            k == capacity * ahead + r,
    ;
    lemma_standing_clock_state(worker, clock, tick, ahead, r, (k + 1) as nat);
}

/// The number of turns begun grows with the number of requests.
proof fn lemma_turns_grow(worker: Worker, clock: Seq<int>, earlier: nat, later: nat)
    requires
        earlier <= later,
    ensures
        turns_begun(worker, clock, earlier) <= turns_begun(worker, clock, later),
    decreases later,
{
    if earlier < later {
        lemma_turns_grow(worker, clock, earlier, (later - 1) as nat);
    }
}

/// The index of the generator is the one reached from the index at the
/// start of the run by the turns begun since.
proof fn lemma_index_follows_turns(worker: Worker, clock: Seq<int>, count: nat)
    requires
        worker.wf(),
        count <= clock.len(),
    ensures
        after_requests(worker, clock, count).state.turn_back_index == index_after_turns(
            worker.state.turn_back_index,
            turns_begun(worker, clock, count),
        ),
    decreases count,
{
    if count > 0 {
        lemma_index_follows_turns(worker, clock, (count - 1) as nat);
        lemma_run_preserves_wf(worker, clock, (count - 1) as nat);
    }
}

/// Where the run starts with no turn under way, a turn is under way only
/// after one was begun.
proof fn lemma_turn_under_way(worker: Worker, clock: Seq<int>, count: nat)
    requires
        worker.wf(),
        worker.state.turn_back_tick < 1,
        count <= clock.len(),
        after_requests(worker, clock, count).state.turn_back_tick >= 1,
    ensures
        turns_begun(worker, clock, count) >= 1,
    decreases count,
{
    if count > 0 {
        let before = after_requests(worker, clock, (count - 1) as nat);
        lemma_run_preserves_wf(worker, clock, (count - 1) as nat);
        if before.state.turn_back_tick >= 1 {
            lemma_turn_under_way(worker, clock, (count - 1) as nat);
        }
    }
}

/// After a request that found the clock turned back, either a later turn
/// has begun, or the turn-back tick lies below the tick that the request
/// took.
proof fn lemma_turn_counts_down(worker: Worker, clock: Seq<int>, i: int, count: nat)
    requires
        worker.wf(),
        stays_in_range(worker, clock),
        0 <= i < count <= clock.len(),
        turned_back(worker, clock, i),
    ensures
        turns_begun(worker, clock, (i + 1) as nat) <= turns_begun(worker, clock, count),
        turns_begun(worker, clock, (i + 1) as nat) == turns_begun(worker, clock, count)
            ==> after_requests(worker, clock, count).state.turn_back_tick < issue_tick(
            worker,
            clock,
            i,
        ),
    decreases count,
{
    lemma_turn_back_exact(worker, clock, i);
    if count - 1 > i {
        let before = after_requests(worker, clock, (count - 1) as nat);
        lemma_turn_counts_down(worker, clock, i, (count - 1) as nat);
        lemma_run_preserves_wf(worker, clock, (count - 1) as nat);
        if turned_back(worker, clock, count - 1) {
            lemma_turn_back_exact(worker, clock, count - 1);
        }
    }
}

/// Four turns in a row never take the same index twice, whether the first
/// of them is begun from `index` or is under way with `index`.
proof fn lemma_indices_differ(index: int, fewer: nat, more: nat)
    requires
        0 <= index <= 4,
        fewer < more <= 4,
        fewer >= 1 || (index >= 1 && more <= 3),
    ensures
        index_after_turns(index, fewer) != index_after_turns(index, more),
{
    reveal_with_fuel(index_after_turns, 5);
}

/// While the clock is turned back, identifiers stay distinct over four
/// turns: in a run that has a part in at most four turns, two requests that
/// find the clock turned back issue different identifiers, as long as the
/// generator's ticks stay in the range that an identifier holds.
///
/// A fifth turn takes the index of the first again. Nothing is claimed of a
/// run with a part in more than four turns.
pub proof fn lemma_turn_back_identifiers_differ(worker: Worker, clock: Seq<int>, i: int, j: int)
    requires
        worker.wf(),
        stays_in_range(worker, clock),
        turns_of_run(worker, clock) <= 4,
        0 <= i < j < clock.len(),
        turned_back(worker, clock, i),
        turned_back(worker, clock, j),
    ensures
        request(worker, clock, i).id is Some,
        request(worker, clock, j).id is Some,
        request(worker, clock, i).id != request(worker, clock, j).id,
{
    let first_turn = turns_begun(worker, clock, (i + 1) as nat);
    let second_turn = turns_begun(worker, clock, (j + 1) as nat);
    lemma_turn_back_exact(worker, clock, i);
    lemma_turn_back_exact(worker, clock, j);
    lemma_field_sizes(worker.config);
    lemma_compose_order(
        worker.config,
        issue_tick(worker, clock, i),
        issue_low(worker, clock, i),
        issue_tick(worker, clock, j),
        issue_low(worker, clock, j),
    );
    lemma_turn_counts_down(worker, clock, i, j as nat);
    lemma_turns_grow(worker, clock, (j + 1) as nat, clock.len());
    lemma_index_follows_turns(worker, clock, (i + 1) as nat);
    lemma_index_follows_turns(worker, clock, (j + 1) as nat);
    if worker.state.turn_back_tick < 1 && !begins_turn(worker, clock, i) {
        lemma_turn_under_way(worker, clock, i as nat);
    }
    assert(first_turn <= second_turn);
    if first_turn < second_turn {
        lemma_indices_differ(worker.state.turn_back_index, first_turn, second_turn);
    }
}

/// Over a run of requests to one generator, every identifier is issued
/// once: two requests of the run never issue the same identifier, however
/// often the sequence numbers of a tick are used up and whatever the clock
/// reads. This holds of a run that has a part in at most four turns of a
/// turned-back clock, as long as the generator's ticks stay in the range that
/// an identifier holds.
///
/// Nothing is claimed of a run with a part in more than four turns: the
/// fifth takes the index of the first again, and may repeat its identifiers.
pub proof fn lemma_identifiers_are_unique(worker: Worker, clock: Seq<int>, i: int, j: int)
    requires
        worker.wf(),
        stays_in_range(worker, clock),
        turns_of_run(worker, clock) <= 4,
        0 <= i < j < clock.len(),
        request(worker, clock, i).id is Some,
        request(worker, clock, j).id is Some,
    ensures
        request(worker, clock, i).id != request(worker, clock, j).id,
{
    if request(worker, clock, i).id == request(worker, clock, j).id {
        lemma_only_turn_back_identifiers_repeat(worker, clock, i, j);
        lemma_turn_back_identifiers_differ(worker, clock, i, j);
    }
}

} // verus!
