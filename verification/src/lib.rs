//! Snowflake-style generation of locally unique, time-sortable 64-bit
//! identifiers, without coordination between processes.
//!
//! An identifier packs, from the most significant bits downward, the number
//! of milliseconds since a configurable epoch, a worker id and a
//! per-millisecond sequence number. A generator keeps issuing identifiers
//! when more are asked for in one millisecond than the sequence holds, by
//! running ahead of the clock, and when the clock is turned back, by marking
//! the identifiers of such an episode with an index of their own.
//!
//! - [`options`] and [`error`]: the options a caller sets, and why they may
//!   be rejected.
//! - [`generator`]: validation of options, and the worker that issues
//!   identifiers.
//! - [`instance`]: one generator, or a row of them, held for a caller.
//! - [`machine`]: the generator as a mathematical state machine, over which
//!   the contracts are stated.
//! - [`laws`], [`runs`] and [`packing`]: what is proved of the identifiers
//!   of one request, of a run of requests, and of their bit layout.
//! - [`layout`] and [`text`]: the numbers behind the layout, and the wording
//!   of explanations.
//!
//! Every call into the library ends after a bounded number of steps. Two
//! things are left to the caller for that: the pause that lets the clock
//! settle after options are committed
//! ([`CoreIdGenerator::settling_delay_millis`]), and the repetition of a
//! request that has to wait for the clock. [`CoreIdGenerator::next_id`]
//! reads the clock once and returns `None` for such a request;
//! [`CoreIdGenerator::next_id_within`] waits for the clock itself, reading
//! it as many times as the caller allows, and returns `None` where that was
//! not enough.

mod clock;
pub mod error;
pub mod generator;
pub mod instance;
pub mod laws;
pub mod layout;
pub mod machine;
pub mod options;
pub mod packing;
pub mod runs;
pub mod text;

pub use error::OptionError;
pub use generator::CoreIdGenerator;
pub use instance::{IdInstance, IdVecInstance};
pub use options::IdGeneratorOptions;
