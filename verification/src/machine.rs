//! The generator as a mathematical state machine.
//!
//! A [`Worker`] is a configuration together with a generation state. Its
//! transition, [`Worker::step`], takes one reading of the clock and says which
//! identifier is issued and which state follows. The contracts of the
//! executable generator are stated over this model.

use vstd::arithmetic::power2::*;
use vstd::prelude::*;

use crate::error::Rejection;
use crate::layout::{field_max, lemma_field_max_bounds, wrap_i64};
use crate::text::range_text;

verus! {

/// The epoch that stands in for a base time of 0.
pub const DEFAULT_BASE_TIME: i64 = 1582136402000;

/// The earliest epoch that is accepted: the start of 1990.
pub const EARLIEST_BASE_TIME: i64 = 631123200000;

/// The number of milliseconds a generator may run ahead of the clock where
/// the options give 0.
pub const DEFAULT_TOP_OVER_COST_COUNT: u32 = 2000;

/// The smallest sequence number that may be configured. The values below it
/// are kept for identifiers issued while the clock is turned back.
pub const RESERVED_SEQ_NUMS: u32 = 5;

/// The largest index that marks an identifier issued while the clock is
/// turned back.
pub const MAX_TURN_BACK_INDEX: u8 = 4;

/// The pause, in milliseconds, that the shifting mode asks for after options
/// are committed.
pub const SETTLING_MILLIS: u64 = 500;

/// The term counter is reset at the end of a term once it exceeds this.
pub const MAX_TERM_INDEX: u32 = 10000;

/// A request for a configuration: for each parameter the value that is asked
/// for, if one is.
pub struct Partial {
    pub method: Option<int>,
    pub base_time: Option<int>,
    pub worker_id: Option<int>,
    pub worker_id_bit_len: Option<int>,
    pub seq_bit_len: Option<int>,
    pub max_seq_num: Option<int>,
    pub min_seq_num: Option<int>,
    pub top_over_cost_count: Option<int>,
}

impl Partial {
    /// The request that asks for nothing.
    pub open spec fn unset() -> Partial {
        Partial {
            method: None,
            base_time: None,
            worker_id: None,
            worker_id_bit_len: None,
            seq_bit_len: None,
            max_seq_num: None,
            min_seq_num: None,
            top_over_cost_count: None,
        }
    }
}

/// The parameters of a generator.
pub struct Config {
    pub method: int,
    pub base_time: int,
    pub worker_id: int,
    pub worker_id_bit_len: int,
    pub seq_bit_len: int,
    pub max_seq_num: int,
    pub min_seq_num: int,
    pub top_over_cost_count: int,
}

impl Config {
    /// The configuration of a generator that was never given options.
    pub open spec fn initial() -> Config {
        Config {
            method: 1,
            base_time: DEFAULT_BASE_TIME as int,
            worker_id: 0,
            worker_id_bit_len: 8,
            seq_bit_len: 8,
            max_seq_num: 255,
            min_seq_num: 5,
            top_over_cost_count: DEFAULT_TOP_OVER_COST_COUNT as int,
        }
    }

    /// The configuration that is asked for where no option is set: the
    /// defaults, with 0 for the largest sequence number, which validation
    /// replaces by the largest that the sequence field holds.
    pub open spec fn defaults() -> Config {
        Config { max_seq_num: 0, ..Config::initial() }
    }

    /// Whether each parameter is a value of the integer type that holds it.
    pub open spec fn representable(self) -> bool {
        &&& 0 <= self.method <= u8::MAX
        &&& i64::MIN <= self.base_time <= i64::MAX
        &&& 0 <= self.worker_id <= u32::MAX
        &&& 0 <= self.worker_id_bit_len <= u8::MAX
        &&& 0 <= self.seq_bit_len <= u8::MAX
        &&& 0 <= self.max_seq_num <= u32::MAX
        &&& 0 <= self.min_seq_num <= u32::MAX
        &&& 0 <= self.top_over_cost_count <= u32::MAX
    }

    /// The configuration that `partial` asks for on top of this one: each
    /// parameter that is set replaces the current value, each parameter that
    /// is not set keeps it.
    pub open spec fn merge(self, partial: Partial) -> Config {
        Config {
            method: match partial.method {
                Some(value) => value,
                None => self.method,
            },
            base_time: match partial.base_time {
                Some(value) => value,
                None => self.base_time,
            },
            worker_id: match partial.worker_id {
                Some(value) => value,
                None => self.worker_id,
            },
            worker_id_bit_len: match partial.worker_id_bit_len {
                Some(value) => value,
                None => self.worker_id_bit_len,
            },
            seq_bit_len: match partial.seq_bit_len {
                Some(value) => value,
                None => self.seq_bit_len,
            },
            max_seq_num: match partial.max_seq_num {
                Some(value) => value,
                None => self.max_seq_num,
            },
            min_seq_num: match partial.min_seq_num {
                Some(value) => value,
                None => self.min_seq_num,
            },
            top_over_cost_count: match partial.top_over_cost_count {
                Some(value) => value,
                None => self.top_over_cost_count,
            },
        }
    }

    /// The configuration as a request that sets every parameter.
    pub open spec fn as_partial(self) -> Partial {
        Partial {
            method: Some(self.method),
            base_time: Some(self.base_time),
            worker_id: Some(self.worker_id),
            worker_id_bit_len: Some(self.worker_id_bit_len),
            seq_bit_len: Some(self.seq_bit_len),
            max_seq_num: Some(self.max_seq_num),
            min_seq_num: Some(self.min_seq_num),
            top_over_cost_count: Some(self.top_over_cost_count),
        }
    }

    /// The number of bits below the tick: those of the worker id and of the
    /// sequence number.
    pub open spec fn timestamp_shift(self) -> int {
        self.worker_id_bit_len + self.seq_bit_len
    }

    /// What holds of every configuration that a generator works with: the
    /// rules of validation, with every default filled in.
    pub open spec fn valid(self) -> bool {
        &&& self.representable()
        &&& EARLIEST_BASE_TIME <= self.base_time
        &&& 1 <= self.worker_id_bit_len
        &&& 2 <= self.seq_bit_len <= 21
        &&& self.worker_id_bit_len + self.seq_bit_len <= 22
        &&& self.worker_id <= field_max(self.worker_id_bit_len as nat)
        &&& 1 <= self.max_seq_num <= field_max(self.seq_bit_len as nat)
        &&& RESERVED_SEQ_NUMS <= self.min_seq_num <= self.max_seq_num
        &&& 1 <= self.top_over_cost_count
    }

    /// The outcome of validating the requested configuration `self` when the
    /// clock reads `now_ms`: the configuration with its defaults filled in, or
    /// the first rule that it breaks.
    pub open spec fn resolve(self, now_ms: int) -> Result<Config, Rejection> {
        if self.base_time != 0 && (self.base_time < EARLIEST_BASE_TIME || self.base_time > now_ms) {
            Err(Rejection::InvalidBaseTime)
        } else if self.worker_id_bit_len == 0 {
            Err(Rejection::InvalidWorkerIdBitLen("should have worker_id_bit_len in range [1, 21]"@))
        } else if self.seq_bit_len + self.worker_id_bit_len > 22 {
            Err(Rejection::BitLenOverflow("should have worker_id_bit_len + seq_bit_len <= 22"@))
        } else if self.worker_id > field_max(self.worker_id_bit_len as nat) {
            Err(
                Rejection::InvalidWorkerId(
                    range_text(0, field_max(self.worker_id_bit_len as nat) as nat),
                ),
            )
        } else if self.seq_bit_len < 2 || self.seq_bit_len > 21 {
            Err(Rejection::InvalidSeqBitLen("should have seq_bit_len in range [2, 21]"@))
        } else if self.max_seq_num > field_max(self.seq_bit_len as nat) {
            Err(
                Rejection::InvalidMaxSeqNum(
                    range_text(1, field_max(self.seq_bit_len as nat) as nat),
                ),
            )
        } else if self.min_seq_num < RESERVED_SEQ_NUMS || self.min_seq_num
            > self.resolved_max_seq_num() {
            Err(
                Rejection::InvalidMinSeqNum(
                    range_text(RESERVED_SEQ_NUMS as nat, self.resolved_max_seq_num() as nat),
                ),
            )
        } else {
            Ok(
                Config {
                    base_time: if self.base_time == 0 {
                        DEFAULT_BASE_TIME as int
                    } else {
                        self.base_time
                    },
                    max_seq_num: self.resolved_max_seq_num(),
                    top_over_cost_count: if self.top_over_cost_count == 0 {
                        DEFAULT_TOP_OVER_COST_COUNT as int
                    } else {
                        self.top_over_cost_count
                    },
                    ..self
                },
            )
        }
    }

    /// The largest sequence number once 0 has been replaced by the largest
    /// value that the sequence field holds.
    pub open spec fn resolved_max_seq_num(self) -> int {
        if self.max_seq_num == 0 {
            field_max(self.seq_bit_len as nat)
        } else {
            self.max_seq_num
        }
    }

    /// The pause, in milliseconds, that a caller owes after committing this
    /// configuration.
    pub open spec fn settling_millis(self) -> int {
        if self.method == 1 {
            SETTLING_MILLIS as int
        } else {
            0
        }
    }

    /// The tick that the clock reading `now_ms` stands for: the milliseconds
    /// since the base time, as 64-bit arithmetic gives them.
    pub open spec fn tick_at(self, now_ms: int) -> int {
        wrap_i64(now_ms - self.base_time)
    }

    /// The fields of an identifier put together without regard to the width
    /// of the result: the tick above the worker id above `low`.
    pub open spec fn compose(self, tick: int, low: int) -> int {
        tick * pow2(self.timestamp_shift() as nat) + self.worker_id * pow2(self.seq_bit_len as nat)
            + low
    }

    /// The identifier made of `tick` and `low`, as 64-bit arithmetic gives it.
    pub open spec fn pack(self, tick: int, low: int) -> int {
        wrap_i64(self.compose(tick, low))
    }

    /// Whether `tick` is one that an identifier holds unchanged: 64-bit
    /// arithmetic keeps the fields as they were put together. An identifier
    /// of such a tick is negative exactly if the tick is.
    pub open spec fn tick_fits(self, tick: int) -> bool {
        -pow2((63 - self.timestamp_shift()) as nat) <= tick < pow2(
            (63 - self.timestamp_shift()) as nat,
        )
    }
}

/// What a generator remembers between two identifiers.
pub struct GenState {
    /// The sequence number that the next identifier of the current tick takes.
    pub current_seq: int,
    /// The tick of the identifier that was issued last on the regular path.
    pub last_tick: int,
    /// The tick that the next identifier takes while the clock is turned
    /// back; below 1 when no such episode is under way.
    pub turn_back_tick: int,
    /// The index that marks the identifiers of the current turn-back episode.
    pub turn_back_index: int,
    /// Whether the generator runs ahead of the clock.
    pub is_over_cost: bool,
    /// The ticks taken ahead of the clock in the current term.
    pub over_cost_count: int,
    /// The identifiers issued ahead of the clock in the current term, as a
    /// 32-bit counter keeps them.
    pub gen_count: int,
    /// The number of terms that were begun, reset from time to time.
    pub term_index: int,
}

impl GenState {
    /// The state of a generator that has issued nothing.
    pub open spec fn initial(min_seq_num: int) -> GenState {
        GenState {
            current_seq: min_seq_num,
            last_tick: 0,
            turn_back_tick: 0,
            turn_back_index: 0,
            is_over_cost: false,
            over_cost_count: 0,
            gen_count: 0,
            term_index: 0,
        }
    }
}

/// What one request does: the identifier that is issued, if one is, and the
/// generator afterwards.
pub struct Step {
    pub id: Option<int>,
    pub after: Worker,
}

/// A generator: its configuration and its generation state.
pub struct Worker {
    pub config: Config,
    pub state: GenState,
}

/// The identifier in `id`, if there is one, as a mathematical integer.
pub open spec fn issued(id: Option<i64>) -> Option<int> {
    match id {
        Some(value) => Some(value as int),
        None => None,
    }
}

/// A configuration that validation lets pass is valid.
pub proof fn lemma_resolved_is_valid(requested: Config, now_ms: int)
    requires
        requested.representable(),
        requested.resolve(now_ms) is Ok,
    ensures
        requested.resolve(now_ms)->Ok_0.valid(),
{
    lemma_field_max_bounds(requested.worker_id_bit_len as nat);
    lemma_field_max_bounds(requested.seq_bit_len as nat);
}

/// The index that follows `index` in the cycle 1, 2, 3, 4.
pub open spec fn next_turn_back_index(index: int) -> int {
    if index + 1 > MAX_TURN_BACK_INDEX {
        1
    } else {
        index + 1
    }
}

/// The 32-bit counter `count` after one more.
pub open spec fn bump_u32(count: int) -> int {
    if count + 1 > u32::MAX {
        0
    } else {
        count + 1
    }
}

impl Worker {
    /// The generator that was never given options.
    pub open spec fn initial() -> Worker {
        Worker {
            config: Config::initial(),
            state: GenState::initial(Config::initial().min_seq_num),
        }
    }

    /// What holds of every generator between two requests.
    pub open spec fn wf(self) -> bool {
        &&& self.config.valid()
        &&& self.config.min_seq_num <= self.state.current_seq <= self.config.max_seq_num + 1
        &&& i64::MIN <= self.state.last_tick <= i64::MAX
        &&& i64::MIN <= self.state.turn_back_tick <= i64::MAX
        &&& 0 <= self.state.turn_back_index <= MAX_TURN_BACK_INDEX
        &&& self.state.turn_back_tick >= 1 ==> self.state.turn_back_index >= 1
        &&& 0 <= self.state.over_cost_count <= u32::MAX
        &&& 0 <= self.state.gen_count <= u32::MAX
        &&& 0 <= self.state.term_index <= MAX_TERM_INDEX + 1
        &&& !self.state.is_over_cost ==> self.state.term_index <= MAX_TERM_INDEX
    }

    /// The outcome of asking for the configuration `requested` when the clock
    /// reads `now_ms`: the generator with the validated configuration
    /// committed, or the rule that the request breaks.
    pub open spec fn reconfigure(self, requested: Config, now_ms: int) -> Result<
        Worker,
        Rejection,
    > {
        match requested.resolve(now_ms) {
            Ok(config) => Ok(self.commit(config)),
            Err(rejection) => Err(rejection),
        }
    }

    /// The outcome of initializing the generator with `options` when the
    /// clock reads `now_ms`: the fields that are not set take the defaults.
    pub open spec fn init(self, options: Partial, now_ms: int) -> Result<
        Worker,
        Rejection,
    > {
        self.reconfigure(Config::defaults().merge(options), now_ms)
    }

    /// The outcome of setting `options` when the clock reads `now_ms`: the
    /// fields that are not set keep their current values.
    pub open spec fn set_options(self, options: Partial, now_ms: int) -> Result<
        Worker,
        Rejection,
    > {
        self.reconfigure(self.config.merge(options), now_ms)
    }

    /// The generator once `config` is committed: the sequence number starts
    /// over, the rest of the generation state stays.
    pub open spec fn commit(self, config: Config) -> Worker {
        Worker { config, state: GenState { current_seq: config.min_seq_num, ..self.state } }
    }

    /// The tick that the clock reading `now_ms` stands for.
    pub open spec fn tick_at(self, now_ms: int) -> int {
        self.config.tick_at(now_ms)
    }

    /// Whether a request at `now_ms` finds the clock turned back: the
    /// generator does not run ahead, and the clock is behind the last tick.
    pub open spec fn turns_back(self, now_ms: int) -> bool {
        !self.state.is_over_cost && self.tick_at(now_ms) < self.state.last_tick
    }

    /// Whether a request at `now_ms` has to wait: the generator has run ahead
    /// of the clock as far as it may, and the clock has not passed it.
    pub open spec fn must_wait(self, now_ms: int) -> bool {
        &&& self.state.is_over_cost
        &&& self.tick_at(now_ms) <= self.state.last_tick
        &&& self.state.over_cost_count >= self.config.top_over_cost_count
    }

    /// Whether the generator has run ahead of the clock as far as it may:
    /// every request has to wait until the clock has passed the last tick.
    pub open spec fn held_back(self) -> bool {
        self.state.is_over_cost && self.state.over_cost_count >= self.config.top_over_cost_count
    }

    /// Issues the identifier of the last tick and the current sequence
    /// number, and moves on to the next sequence number.
    pub open spec fn emit(self) -> Step {
        Step {
            id: Some(self.config.pack(self.state.last_tick, self.state.current_seq)),
            after: Worker {
                state: GenState { current_seq: self.state.current_seq + 1, ..self.state },
                ..self
            },
        }
    }

    /// Starts the sequence over at `tick`.
    pub open spec fn at_tick(self, tick: int) -> Worker {
        Worker {
            state: GenState { last_tick: tick, current_seq: self.config.min_seq_num, ..self.state },
            ..self
        }
    }

    /// The generator once it has left the term in which it ran ahead.
    pub open spec fn end_term(self) -> Worker {
        Worker {
            state: GenState {
                is_over_cost: false,
                over_cost_count: 0,
                gen_count: 0,
                term_index: if self.state.term_index > MAX_TERM_INDEX {
                    0
                } else {
                    self.state.term_index
                },
                ..self.state
            },
            ..self
        }
    }

    /// A request while the clock is turned back: the identifier takes a tick
    /// below the last one, counting down, and the index of the turn in place
    /// of a sequence number. A turn ends when the clock has caught up or the
    /// ticks above 0 are used up; the next turn takes the next index.
    ///
    /// The indices go round from 1 to 4: a fifth turn takes the index of the
    /// first again, and nothing keeps it from repeating an identifier of the
    /// first.
    pub open spec fn turn_back_step(self) -> Step {
        let begins = self.state.turn_back_tick < 1;
        let tick = if begins {
            self.state.last_tick - 1
        } else {
            self.state.turn_back_tick
        };
        let index = if begins {
            next_turn_back_index(self.state.turn_back_index)
        } else {
            self.state.turn_back_index
        };
        Step {
            id: Some(self.config.pack(tick, index)),
            after: Worker {
                state: GenState {
                    turn_back_tick: wrap_i64(tick - 1),
                    turn_back_index: index,
                    ..self.state
                },
                ..self
            },
        }
    }

    /// A request when the generator does not run ahead of the clock, which
    /// is at `tick`.
    pub open spec fn normal_step(self, tick: int) -> Step {
        if tick < self.state.last_tick {
            self.turn_back_step()
        } else {
            let caught_up = Worker {
                state: GenState {
                    turn_back_tick: if self.state.turn_back_tick > 0 {
                        0
                    } else {
                        self.state.turn_back_tick
                    },
                    ..self.state
                },
                ..self
            };
            if tick > self.state.last_tick {
                caught_up.at_tick(tick).emit()
            } else if self.state.current_seq > self.config.max_seq_num {
                let ahead = caught_up.at_tick(wrap_i64(self.state.last_tick + 1));
                Worker {
                    state: GenState {
                        is_over_cost: true,
                        over_cost_count: 1,
                        gen_count: 1,
                        term_index: self.state.term_index + 1,
                        ..ahead.state
                    },
                    ..ahead
                }.emit()
            } else {
                caught_up.emit()
            }
        }
    }

    /// A request when the generator runs ahead of the clock, which is at
    /// `tick`.
    pub open spec fn over_cost_step(self, tick: int) -> Step {
        if tick > self.state.last_tick {
            self.end_term().at_tick(tick).emit()
        } else if self.state.over_cost_count >= self.config.top_over_cost_count {
            Step { id: None, after: self }
        } else if self.state.current_seq > self.config.max_seq_num {
            let ahead = self.at_tick(wrap_i64(self.state.last_tick + 1));
            Worker {
                state: GenState {
                    over_cost_count: self.state.over_cost_count + 1,
                    gen_count: bump_u32(self.state.gen_count),
                    ..ahead.state
                },
                ..ahead
            }.emit()
        } else {
            Worker {
                state: GenState { gen_count: bump_u32(self.state.gen_count), ..self.state },
                ..self
            }.emit()
        }
    }

    /// What a request does when the clock reads `now_ms`.
    pub open spec fn step(self, now_ms: int) -> Step {
        if self.state.is_over_cost {
            self.over_cost_step(self.tick_at(now_ms))
        } else {
            self.normal_step(self.tick_at(now_ms))
        }
    }

    /// The tick of the identifier that a request issues when the clock reads
    /// `now_ms`: while the clock is turned back, the tick below the last one
    /// that the episode has reached; else the tick that the generator is at
    /// after the request.
    pub open spec fn issue_tick(self, now_ms: int) -> int {
        if self.turns_back(now_ms) {
            if self.state.turn_back_tick < 1 {
                self.state.last_tick - 1
            } else {
                self.state.turn_back_tick
            }
        } else {
            self.step(now_ms).after.state.last_tick
        }
    }

    /// The low field of the identifier that a request issues when the clock
    /// reads `now_ms`: while the clock is turned back, the index of the
    /// episode; else the sequence number that the request uses up.
    pub open spec fn issue_low(self, now_ms: int) -> int {
        if self.turns_back(now_ms) {
            self.step(now_ms).after.state.turn_back_index
        } else {
            self.step(now_ms).after.state.current_seq - 1
        }
    }

    /// The first identifier that the generator has not reached on the
    /// regular path: the one of its tick and its next sequence number. Every
    /// identifier issued on the regular path so far lies below it.
    pub open spec fn frontier(self) -> int {
        self.config.compose(self.state.last_tick, self.state.current_seq)
    }

    /// Whether the ticks that the generator holds are ones that an
    /// identifier holds unchanged: the last tick, the tick below it, which a
    /// turned-back clock takes first, and the turn-back tick where a turn is
    /// under way.
    pub open spec fn in_range(self) -> bool {
        &&& self.config.tick_fits(self.state.last_tick)
        &&& self.config.tick_fits(self.state.last_tick - 1)
        &&& self.state.turn_back_tick < pow2((63 - self.config.timestamp_shift()) as nat)
    }

    /// Whether a request when the clock reads `now_ms` issues `id` and leaves
    /// the generator `after`.
    pub open spec fn steps(self, now_ms: int, id: Option<int>, after: Worker) -> bool {
        self.step(now_ms) == (Step { id, after })
    }
}

} // verus!
