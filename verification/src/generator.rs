//! The generator: the options it resolves and validates, and the worker that
//! turns readings of the clock into identifiers.

use vstd::prelude::*;
use vstd::std_specs::convert::FromSpecImpl;
use vstd::string::*;

use crate::clock::wall_clock_millis;
use crate::error::{OptionError, Rejection};
use crate::layout::{
    field_max_value, lemma_field_max_bounds, lemma_wrap_add, lemma_wrapping_add,
    lemma_wrapping_mul, lemma_wrapping_sub, power_of_two,
};
use crate::machine::{
    issued, lemma_resolved_is_valid, Config, GenState, Step, Worker, DEFAULT_BASE_TIME,
    DEFAULT_TOP_OVER_COST_COUNT, EARLIEST_BASE_TIME, MAX_TERM_INDEX, MAX_TURN_BACK_INDEX,
    RESERVED_SEQ_NUMS, SETTLING_MILLIS,
};
use crate::options::IdGeneratorOptions;
use crate::text::range_message;

verus! {

/// A full set of options: every field has a value, which validation may
/// still replace by a default or reject.
#[derive(Debug, Clone, Copy)]
pub struct InstanceOptions {
    pub method: u8,
    pub base_time: i64,
    pub worker_id: u32,
    pub worker_id_bit_len: u8,
    pub seq_bit_len: u8,
    pub max_seq_num: u32,
    pub min_seq_num: u32,
    pub top_over_cost_count: u32,
}

impl View for InstanceOptions {
    type V = Config;

    open spec fn view(&self) -> Config {
        Config {
            method: self.method as int,
            base_time: self.base_time as int,
            worker_id: self.worker_id as int,
            worker_id_bit_len: self.worker_id_bit_len as int,
            seq_bit_len: self.seq_bit_len as int,
            max_seq_num: self.max_seq_num as int,
            min_seq_num: self.min_seq_num as int,
            top_over_cost_count: self.top_over_cost_count as int,
        }
    }
}

impl InstanceOptions {
    /// The options that `partial` stands for when each field that it leaves
    /// unset takes its value from `current`.
    pub open spec fn merged(
        partial: IdGeneratorOptions,
        current: InstanceOptions,
    ) -> InstanceOptions {
        InstanceOptions {
            method: match partial.method {
                Some(v) => v,
                None => current.method,
            },
            base_time: match partial.base_time {
                Some(v) => v,
                None => current.base_time,
            },
            worker_id: match partial.worker_id {
                Some(v) => v,
                None => current.worker_id,
            },
            worker_id_bit_len: match partial.worker_id_bit_len {
                Some(v) => v,
                None => current.worker_id_bit_len,
            },
            seq_bit_len: match partial.seq_bit_len {
                Some(v) => v,
                None => current.seq_bit_len,
            },
            max_seq_num: match partial.max_seq_num {
                Some(v) => v,
                None => current.max_seq_num,
            },
            min_seq_num: match partial.min_seq_num {
                Some(v) => v,
                None => current.min_seq_num,
            },
            top_over_cost_count: match partial.top_over_cost_count {
                Some(v) => v,
                None => current.top_over_cost_count,
            },
        }
    }

    /// The options of a generator that was given none: the documented
    /// defaults, with 0 for the largest sequence number, which validation
    /// replaces by the largest that the sequence field holds.
    pub open spec fn defaults() -> InstanceOptions {
        InstanceOptions {
            method: 1,
            base_time: DEFAULT_BASE_TIME,
            worker_id: 0,
            worker_id_bit_len: 8,
            seq_bit_len: 8,
            max_seq_num: 0,
            min_seq_num: 5,
            top_over_cost_count: DEFAULT_TOP_OVER_COST_COUNT,
        }
    }

    /// Fills the fields that `partial` leaves unset from `current`.
    pub fn merge(partial: IdGeneratorOptions, current: InstanceOptions) -> (options:
        InstanceOptions)
        ensures
            options == Self::merged(partial, current),
    {
        InstanceOptions {
            method: match partial.method {
                Some(v) => v,
                None => current.method,
            },
            base_time: match partial.base_time {
                Some(v) => v,
                None => current.base_time,
            },
            worker_id: match partial.worker_id {
                Some(v) => v,
                None => current.worker_id,
            },
            worker_id_bit_len: match partial.worker_id_bit_len {
                Some(v) => v,
                None => current.worker_id_bit_len,
            },
            seq_bit_len: match partial.seq_bit_len {
                Some(v) => v,
                None => current.seq_bit_len,
            },
            max_seq_num: match partial.max_seq_num {
                Some(v) => v,
                None => current.max_seq_num,
            },
            min_seq_num: match partial.min_seq_num {
                Some(v) => v,
                None => current.min_seq_num,
            },
            top_over_cost_count: match partial.top_over_cost_count {
                Some(v) => v,
                None => current.top_over_cost_count,
            },
        }
    }
}

impl Default for InstanceOptions {
    fn default() -> (options: Self)
        ensures
            options == InstanceOptions::defaults(),
    {
        InstanceOptions {
            method: 1,
            base_time: DEFAULT_BASE_TIME,
            worker_id: 0,
            worker_id_bit_len: 8,
            seq_bit_len: 8,
            max_seq_num: 0,
            min_seq_num: 5,
            top_over_cost_count: DEFAULT_TOP_OVER_COST_COUNT,
        }
    }
}

impl From<IdGeneratorOptions> for InstanceOptions {
    fn from(options: IdGeneratorOptions) -> (full: Self) {
        InstanceOptions::merge(options, InstanceOptions::default())
    }
}

impl FromSpecImpl<IdGeneratorOptions> for InstanceOptions {
    open spec fn obeys_from_spec() -> bool {
        true
    }

    open spec fn from_spec(options: IdGeneratorOptions) -> Self {
        InstanceOptions::merged(options, InstanceOptions::defaults())
    }
}

/// Whether `outcome` reports `expected`, and `after` is the generator that
/// `expected` leaves: the reconfigured one where the options passed, the
/// generator `before` where they were rejected.
pub open spec fn committed(
    outcome: Result<(), OptionError>,
    expected: Result<Worker, Rejection>,
    before: Worker,
    after: Worker,
) -> bool {
    match outcome {
        Ok(_) => expected == Ok::<Worker, Rejection>(after),
        Err(error) => expected == Err::<Worker, Rejection>(error@) && after == before,
    }
}

/// The worker: one configuration and the generation state that goes with it.
#[derive(Debug)]
pub struct SnowFlake {
    method: u8,
    base_time: i64,
    worker_id: u32,
    worker_id_bit_len: u8,
    seq_bit_len: u8,
    max_seq_num: u32,
    min_seq_num: u32,
    top_over_cost_count: u32,
    timestamp_shift: u8,
    current_seq_number: u32,
    last_time_tick: i64,
    turn_back_time_tick: i64,
    turn_back_index: u8,
    is_over_cost: bool,
    over_cost_count_in_one_term: u32,
    gen_count_in_one_term: u32,
    term_index: u32,
}

impl View for SnowFlake {
    type V = Worker;

    closed spec fn view(&self) -> Worker {
        Worker {
            config: Config {
                method: self.method as int,
                base_time: self.base_time as int,
                worker_id: self.worker_id as int,
                worker_id_bit_len: self.worker_id_bit_len as int,
                seq_bit_len: self.seq_bit_len as int,
                max_seq_num: self.max_seq_num as int,
                min_seq_num: self.min_seq_num as int,
                top_over_cost_count: self.top_over_cost_count as int,
            },
            state: GenState {
                current_seq: self.current_seq_number as int,
                last_tick: self.last_time_tick as int,
                turn_back_tick: self.turn_back_time_tick as int,
                turn_back_index: self.turn_back_index as int,
                is_over_cost: self.is_over_cost,
                over_cost_count: self.over_cost_count_in_one_term as int,
                gen_count: self.gen_count_in_one_term as int,
                term_index: self.term_index as int,
            },
        }
    }
}

impl SnowFlake {
    /// The worker is one that the constructors and methods of this type
    /// produce: its model is well formed, and the shift it keeps for the
    /// tick is the one that its bit lengths give.
    pub closed spec fn wf(&self) -> bool {
        &&& self@.wf()
        &&& self.timestamp_shift == self.worker_id_bit_len + self.seq_bit_len
    }

    /// A well-formed worker has a well-formed model.
    pub proof fn lemma_wf_model(&self)
        requires
            self.wf(),
        ensures
            self@.wf(),
    {
    }

    /// Validates `options` when the clock reads `now_ms`, in a fixed order, and
    /// fills in the defaults: a base time of 0 becomes the default epoch, a
    /// largest sequence number of 0 the largest that the sequence field holds, a
    /// top over-cost count of 0 the default. The first rule that is broken
    /// decides the error.
    pub fn check_options(options: InstanceOptions, now_ms: i64) -> (outcome: Result<
        InstanceOptions,
        OptionError,
    >)
        ensures
            match outcome {
                Ok(resolved) => options@.resolve(now_ms as int) == Ok::<Config, Rejection>(
                    resolved@,
                ),
                Err(error) => options@.resolve(now_ms as int) == Err::<Config, Rejection>(error@),
            },
    {
        let mut resolved = options;
        // 1. The base time.
        if options.base_time == 0 {
            resolved.base_time = DEFAULT_BASE_TIME;
        } else if options.base_time < EARLIEST_BASE_TIME || options.base_time > now_ms {
            return Err(OptionError::InvalidBaseTime);
        }
        // 2. The bit lengths together.
        if options.worker_id_bit_len == 0 {
            return Err(
                OptionError::InvalidWorkerIdBitLen(
                    String::from_str("should have worker_id_bit_len in range [1, 21]"),
                ),
            );
        } else if options.seq_bit_len as u32 + options.worker_id_bit_len as u32 > 22 {
            return Err(
                OptionError::BitLenOverflow(
                    String::from_str("should have worker_id_bit_len + seq_bit_len <= 22"),
                ),
            );
        }
        // 3. The worker id.
        let max_worker_id_number = field_max_value(options.worker_id_bit_len);
        if options.worker_id > max_worker_id_number {
            return Err(OptionError::InvalidWorkerId(range_message(0, max_worker_id_number)));
        }
        // 4. The sequence bit length.
        if options.seq_bit_len < 2 || options.seq_bit_len > 21 {
            return Err(
                OptionError::InvalidSeqBitLen(
                    String::from_str("should have seq_bit_len in range [2, 21]"),
                ),
            );
        }
        // 5. The largest sequence number.
        let max_seq_number = field_max_value(options.seq_bit_len);
        if options.max_seq_num > max_seq_number {
            return Err(OptionError::InvalidMaxSeqNum(range_message(1, max_seq_number)));
        } else if options.max_seq_num == 0 {
            resolved.max_seq_num = max_seq_number;
        }
        // 6. The smallest sequence number.
        if options.min_seq_num < RESERVED_SEQ_NUMS || options.min_seq_num > resolved.max_seq_num {
            return Err(
                OptionError::InvalidMinSeqNum(
                    range_message(RESERVED_SEQ_NUMS, resolved.max_seq_num),
                ),
            );
        }
        // 7. The top over-cost count.
        if options.top_over_cost_count == 0 {
            resolved.top_over_cost_count = DEFAULT_TOP_OVER_COST_COUNT;
        }
        Ok(resolved)
    }

    /// The options that the worker currently has, every field with a value.
    fn current_options(&self) -> (options: InstanceOptions)
        ensures
            options@ == self@.config,
    {
        InstanceOptions {
            method: self.method,
            base_time: self.base_time,
            worker_id: self.worker_id,
            worker_id_bit_len: self.worker_id_bit_len,
            seq_bit_len: self.seq_bit_len,
            max_seq_num: self.max_seq_num,
            min_seq_num: self.min_seq_num,
            top_over_cost_count: self.top_over_cost_count,
        }
    }

    /// Commits validated options: the configuration is replaced and the
    /// sequence number starts over; the rest of the generation state stays.
    fn set_instance_options(&mut self, options: InstanceOptions)
        requires
            old(self).wf(),
            options@.valid(),
        ensures
            final(self).wf(),
            final(self)@ == old(self)@.commit(options@),
    {
        self.method = options.method;
        self.base_time = options.base_time;
        self.worker_id_bit_len = options.worker_id_bit_len;
        self.worker_id = options.worker_id;
        self.seq_bit_len = options.seq_bit_len;
        self.max_seq_num = options.max_seq_num;
        self.min_seq_num = options.min_seq_num;
        self.top_over_cost_count = options.top_over_cost_count;
        self.timestamp_shift = self.worker_id_bit_len + self.seq_bit_len;
        self.current_seq_number = self.min_seq_num;
    }

    /// Initializes the worker with `options` as validated when the clock
    /// reads `now_ms`. Rejected options change nothing.
    pub fn init_options_at(&mut self, options: InstanceOptions, now_ms: i64) -> (outcome: Result<
        (),
        OptionError,
    >)
        requires
            old(self).wf(),
        ensures
            final(self).wf(),
            committed(
                outcome,
                old(self)@.reconfigure(options@, now_ms as int),
                old(self)@,
                final(self)@,
            ),
    {
        match Self::check_options(options, now_ms) {
            Ok(resolved) => {
                proof {
                    lemma_resolved_is_valid(options@, now_ms as int);
                }
                self.set_instance_options(resolved);
                Ok(())
            },
            Err(error) => Err(error),
        }
    }

    /// Initializes the worker with `options`, validated against one reading
    /// of the clock: the outcome is that of [`Self::init_options_at`] for
    /// that reading.
    pub fn init_options(&mut self, options: InstanceOptions) -> (outcome: Result<(), OptionError>)
        requires
            old(self).wf(),
        ensures
            final(self).wf(),
            exists|now_ms: i64|
                committed(
                    outcome,
                    #[trigger] old(self)@.reconfigure(options@, now_ms as int),
                    old(self)@,
                    final(self)@,
                ),
    {
        let now_ms = wall_clock_millis();
        self.init_options_at(options, now_ms)
    }

    /// The current configuration, every field set.
    pub fn get_options(&self) -> (options: IdGeneratorOptions)
        ensures
            options@ == self@.config.as_partial(),
    {
        IdGeneratorOptions {
            method: Some(self.method),
            base_time: Some(self.base_time),
            worker_id: Some(self.worker_id),
            worker_id_bit_len: Some(self.worker_id_bit_len),
            seq_bit_len: Some(self.seq_bit_len),
            max_seq_num: Some(self.max_seq_num),
            min_seq_num: Some(self.min_seq_num),
            top_over_cost_count: Some(self.top_over_cost_count),
        }
    }

    /// Sets the fields that `options` gives on top of the current
    /// configuration, as validated when the clock reads `now_ms`. Rejected
    /// options change nothing.
    pub fn set_options_at(&mut self, options: IdGeneratorOptions, now_ms: i64) -> (outcome: Result<
        (),
        OptionError,
    >)
        requires
            old(self).wf(),
        ensures
            final(self).wf(),
            committed(
                outcome,
                old(self)@.set_options(options@, now_ms as int),
                old(self)@,
                final(self)@,
            ),
    {
        let instance_options = InstanceOptions::merge(options, self.current_options());
        self.init_options_at(instance_options, now_ms)
    }

    /// Sets the fields that `options` gives on top of the current
    /// configuration, validated against one reading of the clock: the
    /// outcome is that of [`Self::set_options_at`] for that reading.
    pub fn set_options(&mut self, options: IdGeneratorOptions) -> (outcome: Result<
        (),
        OptionError,
    >)
        requires
            old(self).wf(),
        ensures
            final(self).wf(),
            exists|now_ms: i64|
                committed(
                    outcome,
                    #[trigger] old(self)@.set_options(options@, now_ms as int),
                    old(self)@,
                    final(self)@,
                ),
    {
        let now_ms = wall_clock_millis();
        self.set_options_at(options, now_ms)
    }

    /// The pause, in milliseconds, that the caller owes once options have
    /// been committed: the shifting mode lets the clock settle before the
    /// first identifier is asked for.
    pub fn settling_delay_millis(&self) -> (millis: u64)
        ensures
            millis == self@.config.settling_millis(),
    {
        if self.method == 1 {
            SETTLING_MILLIS
        } else {
            0
        }
    }

    /// Makes one request with one reading of the clock: the outcome is that
    /// of [`Self::next_id_at`] for that reading.
    pub fn next_id(&mut self) -> (id: Option<i64>)
        requires
            old(self).wf(),
        ensures
            final(self).wf(),
            !old(self)@.held_back() ==> id is Some,
            exists|now_ms: i64| #[trigger]
                old(self)@.steps(now_ms as int, issued(id), final(self)@),
    {
        let now_ms = wall_clock_millis();
        let id = self.next_id_at(now_ms);
        assert(old(self)@.steps(now_ms as int, issued(id), self@));
        id
    }

    /// Reads the clock up to `polls` times, until it has passed the last
    /// tick: the busy wait for the clock to catch up. The reading that has
    /// passed it, or `None` when none has.
    fn get_next_time_tick(&self, polls: u32) -> (reading: Option<i64>)
        ensures
            reading matches Some(now_ms) ==> self@.tick_at(now_ms as int) > self@.state.last_tick,
    {
        let mut left = polls;
        while left > 0
            invariant
                left <= polls,
            decreases left,
        {
            let now_ms = wall_clock_millis();
            if self.get_current_time_tick(now_ms) > self.last_time_tick {
                return Some(now_ms);
            }
            left -= 1;
        }
        None
    }

    /// Makes a request and, where it has to wait, reads the clock until it
    /// has passed the last tick and makes the request again; `polls` bounds
    /// the readings of the clock, the first one included. `None` when no
    /// identifier was issued; nothing has changed then.
    pub fn next_id_within(&mut self, polls: u32) -> (id: Option<i64>)
        requires
            old(self).wf(),
        ensures
            final(self).wf(),
            !old(self)@.held_back() && polls > 0 ==> id is Some,
            match id {
                Some(_) => exists|now_ms: i64| #[trigger]
                    old(self)@.steps(now_ms as int, issued(id), final(self)@),
                None => final(self)@ == old(self)@ && (polls == 0 || old(self)@.held_back()),
            },
    {
        if polls == 0 {
            return None;
        }
        let now_ms = wall_clock_millis();
        let id = self.next_id_at(now_ms);
        if id.is_some() {
            assert(old(self)@.steps(now_ms as int, issued(id), self@));
            return id;
        }
        match self.get_next_time_tick(polls - 1) {
            Some(later_ms) => {
                let id = self.next_id_at(later_ms);
                assert(old(self)@.steps(later_ms as int, issued(id), self@));
                id
            },
            None => None,
        }
    }

    /// The identifier made of `tick` and `low`.
    fn pack(&self, tick: i64, low: u32) -> (id: i64)
        requires
            self.wf(),
        ensures
            id == self@.config.pack(tick as int, low as int),
    {
        proof {
            lemma_field_max_bounds(self.timestamp_shift as nat);
        }
        let scale = power_of_two(self.timestamp_shift) as i64;
        let shifted = tick.wrapping_mul(scale);
        proof {
            lemma_field_max_bounds(self.worker_id_bit_len as nat);
            lemma_field_max_bounds(self.seq_bit_len as nat);
            assert(self.worker_id * vstd::arithmetic::power2::pow2(self.seq_bit_len as nat)
                <= 0x40_0000 * 0x40_0000) by (nonlinear_arith)
                requires
                    self.worker_id < 0x40_0000,
                    vstd::arithmetic::power2::pow2(self.seq_bit_len as nat) <= 0x40_0000,
            ;
        }
        let worker_part = (self.worker_id as i64) * (power_of_two(self.seq_bit_len) as i64);
        let id = shifted.wrapping_add(worker_part).wrapping_add(low as i64);
        proof {
            let high = tick * vstd::arithmetic::power2::pow2(self.timestamp_shift as nat);
            lemma_wrapping_mul(tick, scale);
            lemma_wrapping_add(shifted, worker_part);
            lemma_wrapping_add(shifted.wrapping_add(worker_part), low as i64);
            lemma_wrap_add(high, worker_part as int);
            lemma_wrap_add(high + worker_part, low as int);
        }
        id
    }

    /// The tick that the clock reading `now_ms` stands for.
    fn get_current_time_tick(&self, now_ms: i64) -> (tick: i64)
        ensures
            tick == self@.tick_at(now_ms as int),
    {
        proof {
            lemma_wrapping_sub(now_ms, self.base_time);
        }
        now_ms.wrapping_sub(self.base_time)
    }

    /// Issues the identifier of `use_time_tick` and the current sequence
    /// number, and moves on to the next sequence number.
    fn calc_id(&mut self, use_time_tick: i64) -> (id: i64)
        requires
            old(self).wf(),
            old(self).current_seq_number <= old(self).max_seq_num,
        ensures
            final(self).wf(),
            id == old(self)@.config.pack(use_time_tick as int, old(self)@.state.current_seq),
            final(self)@ == (Worker {
                state: GenState {
                    current_seq: old(self)@.state.current_seq + 1,
                    ..old(self)@.state
                },
                ..old(self)@
            }),
    {
        proof {
            lemma_field_max_bounds(self.seq_bit_len as nat);
        }
        let result = self.pack(use_time_tick, self.current_seq_number);
        self.current_seq_number += 1;
        result
    }

    /// Issues the identifier of `use_time_tick` and the turn-back index, and
    /// moves the turn-back tick down by one. The index is one of a turn, from
    /// 1 to 4: 0 marks no identifier.
    fn calc_turn_back_id(&mut self, use_time_tick: i64) -> (id: i64)
        requires
            old(self).wf(),
            old(self).turn_back_index >= 1,
        ensures
            final(self).wf(),
            id == old(self)@.config.pack(use_time_tick as int, old(self)@.state.turn_back_index),
            final(self)@ == (Worker {
                state: GenState {
                    turn_back_tick: crate::layout::wrap_i64(old(self)@.state.turn_back_tick - 1),
                    ..old(self)@.state
                },
                ..old(self)@
            }),
    {
        let result = self.pack(use_time_tick, self.turn_back_index as u32);
        proof {
            lemma_wrapping_sub(self.turn_back_time_tick, 1);
        }
        self.turn_back_time_tick = self.turn_back_time_tick.wrapping_sub(1);
        result
    }

    /// Closes the count of terms at the end of a term: past the largest
    /// count it starts over.
    fn end_over_cost_action(&mut self)
        requires
            old(self).wf(),
        ensures
            final(self).wf(),
            final(self)@ == (Worker {
                state: GenState {
                    term_index: old(self)@.end_term().state.term_index,
                    ..old(self)@.state
                },
                ..old(self)@
            }),
    {
        if self.term_index > MAX_TERM_INDEX {
            self.term_index = 0;
        }
    }

    /// A request while the worker runs ahead of the clock. `None` when it has
    /// run ahead as far as it may and the clock has not passed it: nothing
    /// changes then, and the request is to be made again.
    fn next_over_cost_id(&mut self, now_ms: i64) -> (id: Option<i64>)
        requires
            old(self).wf(),
            old(self).is_over_cost,
        ensures
            final(self).wf(),
            old(self)@.step(now_ms as int) == (Step { id: issued(id), after: final(self)@ }),
    {
        let current_time_tick = self.get_current_time_tick(now_ms);
        if current_time_tick > self.last_time_tick {
            self.end_over_cost_action();
            self.last_time_tick = current_time_tick;
            self.current_seq_number = self.min_seq_num;
            self.is_over_cost = false;
            self.over_cost_count_in_one_term = 0;
            self.gen_count_in_one_term = 0;
            Some(self.calc_id(self.last_time_tick))
        } else if self.over_cost_count_in_one_term >= self.top_over_cost_count {
            None
        } else if self.current_seq_number > self.max_seq_num {
            proof {
                lemma_wrapping_add(self.last_time_tick, 1);
            }
            self.last_time_tick = self.last_time_tick.wrapping_add(1);
            self.current_seq_number = self.min_seq_num;
            self.is_over_cost = true;
            self.over_cost_count_in_one_term += 1;
            self.gen_count_in_one_term = self.gen_count_in_one_term.wrapping_add(1);
            Some(self.calc_id(self.last_time_tick))
        } else {
            self.gen_count_in_one_term = self.gen_count_in_one_term.wrapping_add(1);
            Some(self.calc_id(self.last_time_tick))
        }
    }

    /// A request while the worker does not run ahead of the clock.
    fn next_normal_id(&mut self, now_ms: i64) -> (id: i64)
        requires
            old(self).wf(),
            !old(self).is_over_cost,
        ensures
            final(self).wf(),
            old(self)@.step(now_ms as int) == (Step { id: Some(id as int), after: final(self)@ }),
    {
        let current_time_tick = self.get_current_time_tick(now_ms);
        if current_time_tick < self.last_time_tick {
            if self.turn_back_time_tick < 1 {
                self.turn_back_time_tick = self.last_time_tick - 1;
                self.turn_back_index += 1;
                // The sequence numbers below the smallest configured one are
                // reserved: the indices 1 to 4 mark a turned-back clock.
                if self.turn_back_index > MAX_TURN_BACK_INDEX {
                    self.turn_back_index = 1;
                }
            }
            return self.calc_turn_back_id(self.turn_back_time_tick);
        }
        // The clock has caught up: the turn-back episode is over.
        if self.turn_back_time_tick > 0 {
            self.turn_back_time_tick = 0;
        }
        if current_time_tick > self.last_time_tick {
            self.last_time_tick = current_time_tick;
            self.current_seq_number = self.min_seq_num;
            self.calc_id(self.last_time_tick)
        } else if self.current_seq_number > self.max_seq_num {
            proof {
                lemma_wrapping_add(self.last_time_tick, 1);
            }
            self.term_index += 1;
            self.last_time_tick = self.last_time_tick.wrapping_add(1);
            self.current_seq_number = self.min_seq_num;
            self.is_over_cost = true;
            self.over_cost_count_in_one_term = 1;
            self.gen_count_in_one_term = 1;
            self.calc_id(self.last_time_tick)
        } else {
            self.calc_id(self.last_time_tick)
        }
    }

    /// What a request does when the clock reads `now_ms`: the identifier that
    /// is issued, or `None` when the worker has run ahead of the clock as far
    /// as it may and the clock has not passed it. In that case nothing
    /// changes, and the request is to be made again with a later reading.
    pub fn next_id_at(&mut self, now_ms: i64) -> (id: Option<i64>)
        requires
            old(self).wf(),
        ensures
            final(self).wf(),
            old(self)@.step(now_ms as int) == (Step { id: issued(id), after: final(self)@ }),
            id is None <==> old(self)@.must_wait(now_ms as int),
    {
        if self.is_over_cost {
            self.next_over_cost_id(now_ms)
        } else {
            Some(self.next_normal_id(now_ms))
        }
    }
}

impl Default for SnowFlake {
    /// The worker with the default configuration, which has issued nothing.
    fn default() -> (worker: SnowFlake)
        ensures
            worker.wf(),
            worker@ == Worker::initial(),
    {
        proof {
            vstd::arithmetic::power2::lemma2_to64();
        }
        SnowFlake {
            method: 1,
            base_time: DEFAULT_BASE_TIME,
            worker_id: 0,
            worker_id_bit_len: 8,
            seq_bit_len: 8,
            max_seq_num: 255,
            min_seq_num: 5,
            top_over_cost_count: DEFAULT_TOP_OVER_COST_COUNT,
            timestamp_shift: 16,
            current_seq_number: 5,
            last_time_tick: 0,
            turn_back_time_tick: 0,
            turn_back_index: 0,
            is_over_cost: false,
            over_cost_count_in_one_term: 0,
            gen_count_in_one_term: 0,
            term_index: 0,
        }
    }
}

/// A generator of identifiers: the worker behind the interface that callers
/// use to initialize it, to read and set its options, and to ask for
/// identifiers.
#[derive(Debug)]
pub struct CoreIdGenerator {
    worker: SnowFlake,
}

impl View for CoreIdGenerator {
    type V = Worker;

    closed spec fn view(&self) -> Worker {
        self.worker@
    }
}

impl Default for CoreIdGenerator {
    /// The generator with the default configuration, which has issued
    /// nothing.
    fn default() -> (generator: CoreIdGenerator)
        ensures
            generator.wf(),
            generator@ == Worker::initial(),
    {
        CoreIdGenerator { worker: SnowFlake::default() }
    }
}

impl CoreIdGenerator {
    /// The generator is one that the constructors and methods of this type
    /// produce; its model is then well formed.
    pub closed spec fn wf(&self) -> bool {
        self.worker.wf()
    }

    /// A well-formed generator has a well-formed model.
    pub proof fn lemma_wf_model(&self)
        requires
            self.wf(),
        ensures
            self@.wf(),
    {
    }

    /// Initializes the generator with `options` as validated when the clock
    /// reads `now_ms`: the fields that are not set take the defaults.
    /// Rejected options change nothing.
    pub fn init_at(&mut self, options: IdGeneratorOptions, now_ms: i64) -> (outcome: Result<
        (),
        OptionError,
    >)
        requires
            old(self).wf(),
        ensures
            final(self).wf(),
            committed(outcome, old(self)@.init(options@, now_ms as int), old(self)@, final(self)@),
    {
        let instance_options = InstanceOptions::from(options);
        self.worker.init_options_at(instance_options, now_ms)
    }

    /// Initializes the generator with `options`, validated against one
    /// reading of the clock: the outcome is that of [`Self::init_at`] for
    /// that reading.
    pub fn init(&mut self, options: IdGeneratorOptions) -> (outcome: Result<(), OptionError>)
        requires
            old(self).wf(),
        ensures
            final(self).wf(),
            exists|now_ms: i64|
                committed(
                    outcome,
                    #[trigger] old(self)@.init(options@, now_ms as int),
                    old(self)@,
                    final(self)@,
                ),
    {
        let now_ms = wall_clock_millis();
        self.init_at(options, now_ms)
    }

    /// The current configuration, every field set.
    pub fn get_options(&self) -> (options: IdGeneratorOptions)
        ensures
            options@ == self@.config.as_partial(),
    {
        self.worker.get_options()
    }

    /// Sets the fields that `options` gives on top of the current
    /// configuration, as validated when the clock reads `now_ms`. Rejected
    /// options change nothing.
    pub fn set_options_at(&mut self, options: IdGeneratorOptions, now_ms: i64) -> (outcome: Result<
        (),
        OptionError,
    >)
        requires
            old(self).wf(),
        ensures
            final(self).wf(),
            committed(
                outcome,
                old(self)@.set_options(options@, now_ms as int),
                old(self)@,
                final(self)@,
            ),
    {
        self.worker.set_options_at(options, now_ms)
    }

    /// Sets the fields that `options` gives on top of the current
    /// configuration, validated against one reading of the clock: the
    /// outcome is that of [`Self::set_options_at`] for that reading.
    pub fn set_options(&mut self, options: IdGeneratorOptions) -> (outcome: Result<
        (),
        OptionError,
    >)
        requires
            old(self).wf(),
        ensures
            final(self).wf(),
            exists|now_ms: i64|
                committed(
                    outcome,
                    #[trigger] old(self)@.set_options(options@, now_ms as int),
                    old(self)@,
                    final(self)@,
                ),
    {
        let now_ms = wall_clock_millis();
        self.set_options_at(options, now_ms)
    }

    /// The pause, in milliseconds, that the caller owes once options have
    /// been committed.
    pub fn settling_delay_millis(&self) -> (millis: u64)
        ensures
            millis == self@.config.settling_millis(),
    {
        self.worker.settling_delay_millis()
    }

    /// What a request does when the clock reads `now_ms`: the identifier that
    /// is issued, or `None` when the generator has run ahead of the clock as
    /// far as it may and the clock has not passed it. In that case nothing
    /// changes, and the request is to be made again with a later reading.
    pub fn next_id_at(&mut self, now_ms: i64) -> (id: Option<i64>)
        requires
            old(self).wf(),
        ensures
            final(self).wf(),
            old(self)@.step(now_ms as int) == (Step { id: issued(id), after: final(self)@ }),
            id is None <==> old(self)@.must_wait(now_ms as int),
    {
        self.worker.next_id_at(now_ms)
    }

    /// Makes one request with one reading of the clock: the outcome is that
    /// of [`Self::next_id_at`] for that reading.
    pub fn next_id(&mut self) -> (id: Option<i64>)
        requires
            old(self).wf(),
        ensures
            final(self).wf(),
            !old(self)@.held_back() ==> id is Some,
            exists|now_ms: i64| #[trigger]
                old(self)@.steps(now_ms as int, issued(id), final(self)@),
    {
        let now_ms = wall_clock_millis();
        let id = self.next_id_at(now_ms);
        assert(old(self)@.steps(now_ms as int, issued(id), self@));
        id
    }
    /// Makes a request and, where it has to wait, reads the clock until it
    /// has passed the last tick and makes the request again; `polls` bounds
    /// the readings of the clock, the first one included. `None` when no
    /// identifier was issued; nothing has changed then.
    pub fn next_id_within(&mut self, polls: u32) -> (id: Option<i64>)
        requires
            old(self).wf(),
        ensures
            final(self).wf(),
            !old(self)@.held_back() && polls > 0 ==> id is Some,
            match id {
                Some(_) => exists|now_ms: i64| #[trigger]
                    old(self)@.steps(now_ms as int, issued(id), final(self)@),
                None => final(self)@ == old(self)@ && (polls == 0 || old(self)@.held_back()),
            },
    {
        let id = self.worker.next_id_within(polls);
        proof {
            if id.is_some() {
                let now_ms = choose|now_ms: i64| #[trigger]
                    old(self).worker@.steps(now_ms as int, issued(id), self.worker@);
                assert(old(self)@.steps(now_ms as int, issued(id), self@));
            }
        }
        id
    }
}

} // verus!
