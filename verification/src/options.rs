//! The options a caller may set on a generator, each of them optional.

use vstd::prelude::*;

use crate::machine::Partial;

verus! {

/// Options for a generator. A field left at `None` keeps the generator's
/// current value when the options are applied to a configured generator, and
/// takes the documented default when a generator is initialized.
///
/// - `method`: 1 selects the shifting mode, which asks for a short pause after
///   the options are committed.
/// - `base_time`: the epoch in milliseconds; 0 stands for the default epoch.
/// - `worker_id`: assigned by the caller, at most `2^worker_id_bit_len - 1`.
/// - `worker_id_bit_len`: at least 1; together with `seq_bit_len` at most 22.
/// - `seq_bit_len`: in the range \[2, 21\].
/// - `max_seq_num`: at most `2^seq_bit_len - 1`; 0 stands for that maximum.
/// - `min_seq_num`: in the range \[5, `max_seq_num`\]; the values below 5 are
///   reserved for identifiers issued while the clock is turned back.
/// - `top_over_cost_count`: how many milliseconds a generator may run ahead of
///   the clock before it waits; 0 stands for the default of 2000.
#[derive(Debug, Clone, Copy, PartialEq)]
pub struct IdGeneratorOptions {
    pub method: Option<u8>,
    pub base_time: Option<i64>,
    pub worker_id: Option<u32>,
    pub worker_id_bit_len: Option<u8>,
    pub seq_bit_len: Option<u8>,
    pub max_seq_num: Option<u32>,
    pub min_seq_num: Option<u32>,
    pub top_over_cost_count: Option<u32>,
}

impl View for IdGeneratorOptions {
    type V = Partial;

    open spec fn view(&self) -> Partial {
        Partial {
            method: match self.method {
                Some(value) => Some(value as int),
                None => None,
            },
            base_time: match self.base_time {
                Some(value) => Some(value as int),
                None => None,
            },
            worker_id: match self.worker_id {
                Some(value) => Some(value as int),
                None => None,
            },
            worker_id_bit_len: match self.worker_id_bit_len {
                Some(value) => Some(value as int),
                None => None,
            },
            seq_bit_len: match self.seq_bit_len {
                Some(value) => Some(value as int),
                None => None,
            },
            max_seq_num: match self.max_seq_num {
                Some(value) => Some(value as int),
                None => None,
            },
            min_seq_num: match self.min_seq_num {
                Some(value) => Some(value as int),
                None => None,
            },
            top_over_cost_count: match self.top_over_cost_count {
                Some(value) => Some(value as int),
                None => None,
            },
        }
    }
}

impl IdGeneratorOptions {
    /// Options with no field set.
    pub open spec fn unset() -> Self {
        IdGeneratorOptions {
            method: None,
            base_time: None,
            worker_id: None,
            worker_id_bit_len: None,
            seq_bit_len: None,
            max_seq_num: None,
            min_seq_num: None,
            top_over_cost_count: None,
        }
    }

    pub fn new() -> (options: Self)
        ensures
            options == Self::unset(),
    {
        IdGeneratorOptions {
            method: None,
            base_time: None,
            worker_id: None,
            worker_id_bit_len: None,
            seq_bit_len: None,
            max_seq_num: None,
            min_seq_num: None,
            top_over_cost_count: None,
        }
    }

    /// Sets the generation mode and leaves the other fields as they are.
    pub fn method(self, method: u8) -> (options: Self)
        ensures
            options == (IdGeneratorOptions { method: Some(method), ..self }),
    {
        IdGeneratorOptions { method: Some(method), ..self }
    }

    /// Sets the epoch, in milliseconds since the Unix epoch, and leaves the
    /// other fields as they are.
    pub fn base_time(self, base_time: i64) -> (options: Self)
        ensures
            options == (IdGeneratorOptions { base_time: Some(base_time), ..self }),
    {
        IdGeneratorOptions { base_time: Some(base_time), ..self }
    }

    /// Sets the worker id and leaves the other fields as they are.
    pub fn worker_id(self, worker_id: u32) -> (options: Self)
        ensures
            options == (IdGeneratorOptions { worker_id: Some(worker_id), ..self }),
    {
        IdGeneratorOptions { worker_id: Some(worker_id), ..self }
    }

    /// Sets the number of bits that hold the worker id and leaves the other
    /// fields as they are.
    pub fn worker_id_bit_len(self, worker_id_bit_len: u8) -> (options: Self)
        ensures
            options == (IdGeneratorOptions { worker_id_bit_len: Some(worker_id_bit_len), ..self }),
    {
        IdGeneratorOptions { worker_id_bit_len: Some(worker_id_bit_len), ..self }
    }

    /// Sets the number of bits that hold the sequence number and leaves the
    /// other fields as they are.
    pub fn seq_bit_len(self, seq_bit_len: u8) -> (options: Self)
        ensures
            options == (IdGeneratorOptions { seq_bit_len: Some(seq_bit_len), ..self }),
    {
        IdGeneratorOptions { seq_bit_len: Some(seq_bit_len), ..self }
    }

    /// Sets the largest sequence number and leaves the other fields as they are.
    pub fn max_seq_num(self, max_seq_num: u32) -> (options: Self)
        ensures
            options == (IdGeneratorOptions { max_seq_num: Some(max_seq_num), ..self }),
    {
        IdGeneratorOptions { max_seq_num: Some(max_seq_num), ..self }
    }

    /// Sets the smallest sequence number and leaves the other fields as they are.
    pub fn min_seq_num(self, min_seq_num: u32) -> (options: Self)
        ensures
            options == (IdGeneratorOptions { min_seq_num: Some(min_seq_num), ..self }),
    {
        IdGeneratorOptions { min_seq_num: Some(min_seq_num), ..self }
    }

    /// Sets the number of milliseconds a generator may run ahead of the
    /// clock and leaves the other fields as they are.
    pub fn top_over_cost_count(self, top_over_cost_count: u32) -> (options: Self)
        ensures
            options == (IdGeneratorOptions {
                top_over_cost_count: Some(top_over_cost_count),
                ..self
            }),
    {
        IdGeneratorOptions { top_over_cost_count: Some(top_over_cost_count), ..self }
    }
}

impl Default for IdGeneratorOptions {
    fn default() -> (options: Self)
        ensures
            options == Self::unset(),
    {
        IdGeneratorOptions::new()
    }
}

} // verus!
