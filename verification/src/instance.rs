//! Generators held for a caller: one alone, or several in a row, each
//! addressed by its position.
//!
//! Both holders own their generators. A caller that shares one between
//! threads puts it behind a lock of its own: a request reads and writes
//! several fields of a generator, so only one may run on a generator at a
//! time. A caller that locks each generator of a row on its own takes them
//! out with [`IdVecInstance::into_generators`] and finds a slot with
//! [`IdVecInstance::check_index`].

use vstd::prelude::*;

use crate::clock::wall_clock_millis;
use crate::error::{OptionError, Rejection};
use crate::generator::{committed, CoreIdGenerator};
use crate::machine::{issued, Worker};
use crate::options::IdGeneratorOptions;

verus! {

/// One generator.
#[derive(Debug)]
pub struct IdInstance {
    generator: CoreIdGenerator,
}

impl View for IdInstance {
    type V = Worker;

    closed spec fn view(&self) -> Worker {
        self.generator@
    }
}

impl Default for IdInstance {
    fn default() -> (instance: IdInstance)
        ensures
            instance.wf(),
            instance@ == Worker::initial(),
    {
        IdInstance::new()
    }
}

impl IdInstance {
    /// The instance is one that the constructors and methods of this type
    /// produce; its model is then well formed.
    pub closed spec fn wf(&self) -> bool {
        self.generator.wf()
    }

    /// A well-formed instance has a well-formed model.
    pub proof fn lemma_wf_model(&self)
        requires
            self.wf(),
        ensures
            self@.wf(),
    {
        self.generator.lemma_wf_model();
    }

    /// The instance whose generator has the default configuration and has
    /// issued nothing.
    pub fn new() -> (instance: IdInstance)
        ensures
            instance.wf(),
            instance@ == Worker::initial(),
    {
        IdInstance { generator: CoreIdGenerator::default() }
    }

    /// Initializes the generator with `options` as validated when the clock
    /// reads `now_ms`. Rejected options change nothing.
    pub fn init_at(&mut self, options: IdGeneratorOptions, now_ms: i64) -> (outcome: Result<
        (),
        OptionError,
    >)
        requires
            old(self).wf(),
        ensures
            final(self).wf(),
            committed(outcome, old(self)@.init(options@, now_ms as int), old(self)@, final(self)@),
    {
        self.generator.init_at(options, now_ms)
    }

    /// Initializes the generator with `options`, validated against one
    /// reading of the clock.
    pub fn init(&mut self, options: IdGeneratorOptions) -> (outcome: Result<(), OptionError>)
        requires
            old(self).wf(),
        ensures
            final(self).wf(),
            exists|now_ms: i64|
                committed(
                    outcome,
                    #[trigger] old(self)@.init(options@, now_ms as int),
                    old(self)@,
                    final(self)@,
                ),
    {
        let now_ms = wall_clock_millis();
        self.init_at(options, now_ms)
    }

    /// Sets the fields that `options` gives, as validated when the clock
    /// reads `now_ms`. Rejected options change nothing.
    pub fn set_options_at(&mut self, options: IdGeneratorOptions, now_ms: i64) -> (outcome: Result<
        (),
        OptionError,
    >)
        requires
            old(self).wf(),
        ensures
            final(self).wf(),
            committed(
                outcome,
                old(self)@.set_options(options@, now_ms as int),
                old(self)@,
                final(self)@,
            ),
    {
        self.generator.set_options_at(options, now_ms)
    }

    /// Sets the fields that `options` gives, validated against one reading of
    /// the clock.
    pub fn set_options(&mut self, options: IdGeneratorOptions) -> (outcome: Result<
        (),
        OptionError,
    >)
        requires
            old(self).wf(),
        ensures
            final(self).wf(),
            exists|now_ms: i64|
                committed(
                    outcome,
                    #[trigger] old(self)@.set_options(options@, now_ms as int),
                    old(self)@,
                    final(self)@,
                ),
    {
        let now_ms = wall_clock_millis();
        self.set_options_at(options, now_ms)
    }

    /// The current configuration, every field set.
    pub fn get_options(&self) -> (options: IdGeneratorOptions)
        ensures
            options@ == self@.config.as_partial(),
    {
        self.generator.get_options()
    }

    /// The pause, in milliseconds, that the caller owes once options have
    /// been committed.
    pub fn settling_delay_millis(&self) -> (millis: u64)
        ensures
            millis == self@.config.settling_millis(),
    {
        self.generator.settling_delay_millis()
    }

    /// What a request does when the clock reads `now_ms`: the identifier that
    /// is issued, or `None` when the request is to be made again with a
    /// later reading.
    pub fn next_id_at(&mut self, now_ms: i64) -> (id: Option<i64>)
        requires
            old(self).wf(),
        ensures
            final(self).wf(),
            old(self)@.steps(now_ms as int, issued(id), final(self)@),
            id is None <==> old(self)@.must_wait(now_ms as int),
    {
        self.generator.next_id_at(now_ms)
    }

    /// Makes one request with one reading of the clock.
    pub fn next_id(&mut self) -> (id: Option<i64>)
        requires
            old(self).wf(),
        ensures
            final(self).wf(),
            !old(self)@.held_back() ==> id is Some,
            exists|now_ms: i64| #[trigger]
                old(self)@.steps(now_ms as int, issued(id), final(self)@),
    {
        let now_ms = wall_clock_millis();
        let id = self.next_id_at(now_ms);
        assert(old(self)@.steps(now_ms as int, issued(id), self@));
        id
    }
    /// Makes a request and, where it has to wait, reads the clock until it
    /// has passed the last tick and makes the request again; `polls` bounds
    /// the readings of the clock, the first one included. `None` when no
    /// identifier was issued; nothing has changed then.
    pub fn next_id_within(&mut self, polls: u32) -> (id: Option<i64>)
        requires
            old(self).wf(),
        ensures
            final(self).wf(),
            !old(self)@.held_back() && polls > 0 ==> id is Some,
            match id {
                Some(_) => exists|now_ms: i64| #[trigger]
                    old(self)@.steps(now_ms as int, issued(id), final(self)@),
                None => final(self)@ == old(self)@ && (polls == 0 || old(self)@.held_back()),
            },
    {
        let id = self.generator.next_id_within(polls);
        proof {
            if id.is_some() {
                let now_ms = choose|now_ms: i64| #[trigger]
                    old(self).generator@.steps(now_ms as int, issued(id), self.generator@);
                assert(old(self)@.steps(now_ms as int, issued(id), self@));
            }
        }
        id
    }
}

/// Several generators in a row.
#[derive(Debug)]
pub struct IdVecInstance {
    generators: Vec<CoreIdGenerator>,
}

impl View for IdVecInstance {
    type V = Seq<Worker>;

    closed spec fn view(&self) -> Seq<Worker> {
        Seq::new(self.generators@.len(), |i: int| self.generators@[i]@)
    }
}

impl Default for IdVecInstance {
    fn default() -> (instance: IdVecInstance)
        ensures
            instance.wf(),
            instance@ == Seq::<Worker>::empty(),
    {
        IdVecInstance::new()
    }
}

/// Whether initializing a row of generators with `options`, the `i`-th of
/// them validated when the clock reads `clock[i]`, gives `outcome` and leaves
/// the row `after` in place of `before`.
///
/// No options at all are an error. Otherwise each generator starts from the
/// default one and is initialized with its options, in order, until one is
/// rejected. Where all pass, they replace the row; the first rejection is
/// reported. An error of either kind leaves the row as it was.
pub open spec fn initialized(
    options: Seq<IdGeneratorOptions>,
    clock: Seq<i64>,
    outcome: Result<(), OptionError>,
    before: Seq<Worker>,
    after: Seq<Worker>,
) -> bool {
    if options.len() == 0 {
        &&& outcome matches Err(error)
        &&& error@ == Rejection::InvalidVecLen(0)
        &&& after == before
    } else {
        match outcome {
            Ok(_) => {
                &&& clock.len() == options.len()
                &&& after.len() == options.len()
                &&& forall|i: int|
                    0 <= i < options.len() ==> #[trigger] Worker::initial().init(
                        options[i]@,
                        clock[i] as int,
                    ) == Ok::<Worker, Rejection>(after[i])
            },
            Err(error) => {
                &&& 1 <= clock.len() <= options.len()
                &&& forall|i: int|
                    0 <= i < clock.len() - 1 ==> (#[trigger] Worker::initial().init(
                        options[i]@,
                        clock[i] as int,
                    )) is Ok
                &&& Worker::initial().init(
                    options[clock.len() - 1]@,
                    clock[clock.len() - 1] as int,
                ) == Err::<Worker, Rejection>(error@)
                &&& after == before
            },
        }
    }
}

/// Whether setting options on the generator at `index` of the row `before`
/// gives `outcome` and leaves the row `after`, where `expected` is what the
/// generator at `index` makes of the options.
pub open spec fn slot_committed(
    outcome: Result<(), OptionError>,
    index: int,
    expected: Result<Worker, Rejection>,
    before: Seq<Worker>,
    after: Seq<Worker>,
) -> bool {
    if 0 <= index < before.len() {
        &&& after == before.update(index, after[index])
        &&& committed(outcome, expected, before[index], after[index])
    } else {
        &&& outcome matches Err(error)
        &&& error@ == Rejection::IndexOutOfRange(index)
        &&& after == before
    }
}

impl IdVecInstance {
    /// The instance is one that the constructors and methods of this type
    /// produce; the models of its generators are then well formed.
    pub closed spec fn wf(&self) -> bool {
        forall|i: int| 0 <= i < self.generators@.len() ==> (#[trigger] self.generators@[i]).wf()
    }

    /// The generators of a well-formed instance have well-formed models.
    pub proof fn lemma_wf_model(&self)
        requires
            self.wf(),
        ensures
            forall|i: int| 0 <= i < self@.len() ==> (#[trigger] self@[i]).wf(),
    {
        assert forall|i: int| 0 <= i < self@.len() implies (#[trigger] self@[i]).wf() by {
            self.generators@[i].lemma_wf_model();
        }
    }

    /// The instance without generators.
    pub fn new() -> (instance: IdVecInstance)
        ensures
            instance.wf(),
            instance@ == Seq::<Worker>::empty(),
    {
        let instance = IdVecInstance { generators: Vec::new() };
        assert(instance@ =~= Seq::<Worker>::empty());
        instance
    }

    /// The number of generators.
    pub fn len(&self) -> (len: usize)
        ensures
            len == self@.len(),
    {
        self.generators.len()
    }

    /// Whether an index into a row of `len` generators has a generator: an
    /// index past the end is an error.
    pub fn check_index(index: usize, len: usize) -> (outcome: Result<(), OptionError>)
        ensures
            match outcome {
                Ok(_) => index < len,
                Err(error) => index >= len && error@ == Rejection::IndexOutOfRange(index as int),
            },
    {
        if index >= len {
            Err(OptionError::IndexOutOfRange(index))
        } else {
            Ok(())
        }
    }

    /// Replaces the generators by one for each of `options`, each validated
    /// against a reading of the clock of its own: see [`initialized`]. The
    /// row is replaced only where every generator was made; a rejection
    /// leaves it as it was.
    pub fn init(&mut self, options: Vec<IdGeneratorOptions>) -> (outcome: Result<(), OptionError>)
        requires
            old(self).wf(),
        ensures
            final(self).wf(),
            exists|clock: Seq<i64>| #[trigger]
                initialized(options@, clock, outcome, old(self)@, final(self)@),
    {
        if options.len() == 0 {
            let outcome = Err(OptionError::InvalidVecLen(0));
            assert(initialized(options@, Seq::<i64>::empty(), outcome, old(self)@, self@));
            return outcome;
        }
        let mut made: Vec<CoreIdGenerator> = Vec::new();
        let ghost mut clock: Seq<i64> = Seq::empty();
        let mut i: usize = 0;
        while i < options.len()
            invariant
                i <= options.len(),
                options.len() > 0,
                self.wf(),
                self@ == old(self)@,
                made@.len() == i,
                clock.len() == i,
                forall|k: int| 0 <= k < i ==> (#[trigger] made@[k]).wf(),
                forall|k: int|
                    0 <= k < i ==> #[trigger] Worker::initial().init(options@[k]@, clock[k] as int)
                        == Ok::<Worker, Rejection>(made@[k]@),
            decreases options.len() - i,
        {
            let mut generator = CoreIdGenerator::default();
            let now_ms = wall_clock_millis();
            proof {
                clock = clock.push(now_ms);
            }
            match generator.init_at(options[i], now_ms) {
                Ok(_) => {
                    made.push(generator);
                },
                Err(error) => {
                    let outcome = Err(error);
                    assert(initialized(options@, clock, outcome, old(self)@, self@));
                    return outcome;
                },
            }
            i += 1;
        }
        self.generators = made;
        let outcome = Ok(());
        assert(initialized(options@, clock, outcome, old(self)@, self@));
        outcome
    }

    /// Hands the generators out, in their order, to a caller that holds each
    /// of them on its own.
    pub fn into_generators(self) -> (generators: Vec<CoreIdGenerator>)
        requires
            self.wf(),
        ensures
            generators@.len() == self@.len(),
            forall|i: int|
                0 <= i < generators@.len() ==> (#[trigger] generators@[i]).wf() && generators@[i]@
                    == self@[i],
    {
        self.generators
    }

    /// Sets the fields that `options` gives on the generator at `index`, as
    /// validated when the clock reads `now_ms`. An index past the end is an
    /// error; an error of either kind changes nothing.
    pub fn set_options_at(
        &mut self,
        index: usize,
        options: IdGeneratorOptions,
        now_ms: i64,
    ) -> (outcome: Result<(), OptionError>)
        requires
            old(self).wf(),
        ensures
            final(self).wf(),
            final(self)@.len() == old(self)@.len(),
            slot_committed(
                outcome,
                index as int,
                old(self)@[index as int].set_options(options@, now_ms as int),
                old(self)@,
                final(self)@,
            ),
    {
        match Self::check_index(index, self.generators.len()) {
            Ok(_) => {},
            Err(error) => {
                return Err(error);
            },
        }
        let outcome = self.generators[index].set_options_at(options, now_ms);
        assert(self@ =~= old(self)@.update(index as int, self@[index as int]));
        outcome
    }

    /// Sets the fields that `options` gives on the generator at `index`,
    /// validated against one reading of the clock.
    pub fn set_options(&mut self, index: usize, options: IdGeneratorOptions) -> (outcome: Result<
        (),
        OptionError,
    >)
        requires
            old(self).wf(),
        ensures
            final(self).wf(),
            final(self)@.len() == old(self)@.len(),
            exists|now_ms: i64|
                slot_committed(
                    outcome,
                    index as int,
                    #[trigger] old(self)@[index as int].set_options(options@, now_ms as int),
                    old(self)@,
                    final(self)@,
                ),
    {
        let now_ms = wall_clock_millis();
        let outcome = self.set_options_at(index, options, now_ms);
        assert(slot_committed(
            outcome,
            index as int,
            old(self)@[index as int].set_options(options@, now_ms as int),
            old(self)@,
            self@,
        ));
        outcome
    }

    /// The configuration of the generator at `index`, every field set; an
    /// index past the end is an error.
    pub fn get_options(&self, index: usize) -> (outcome: Result<IdGeneratorOptions, OptionError>)
        ensures
            match outcome {
                Ok(options) => index < self@.len() && options@
                    == self@[index as int].config.as_partial(),
                Err(error) => index >= self@.len() && error@ == Rejection::IndexOutOfRange(
                    index as int,
                ),
            },
    {
        match Self::check_index(index, self.generators.len()) {
            Ok(_) => Ok(self.generators[index].get_options()),
            Err(error) => Err(error),
        }
    }

    /// The pause, in milliseconds, that the caller owes once options have
    /// been committed to the generator at `index`.
    pub fn settling_delay_millis(&self, index: usize) -> (millis: u64)
        requires
            index < self@.len(),
        ensures
            millis == self@[index as int].config.settling_millis(),
    {
        self.generators[index].settling_delay_millis()
    }

    /// What a request to the generator at `index` does when the clock reads
    /// `now_ms`: the identifier that is issued, or `None` when the request is
    /// to be made again with a later reading. The other generators stay as
    /// they are.
    ///
    /// The index is not checked for the caller: one past the end is ruled out
    /// by the contract, and panics where the caller is not verified. This
    /// keeps the check out of the path that every identifier takes.
    pub fn next_id_at(&mut self, index: usize, now_ms: i64) -> (id: Option<i64>)
        requires
            old(self).wf(),
            index < old(self)@.len(),
        ensures
            final(self).wf(),
            old(self)@[index as int].steps(now_ms as int, issued(id), final(self)@[index as int]),
            id is None <==> old(self)@[index as int].must_wait(now_ms as int),
            final(self)@ == old(self)@.update(index as int, final(self)@[index as int]),
    {
        let id = self.generators[index].next_id_at(now_ms);
        assert(self@ =~= old(self)@.update(index as int, self@[index as int]));
        id
    }

    /// Makes one request to the generator at `index` with one reading of the
    /// clock. The index is not checked for the caller, as in
    /// [`Self::next_id_at`].
    pub fn next_id(&mut self, index: usize) -> (id: Option<i64>)
        requires
            old(self).wf(),
            index < old(self)@.len(),
        ensures
            final(self).wf(),
            final(self)@ == old(self)@.update(index as int, final(self)@[index as int]),
            !old(self)@[index as int].held_back() ==> id is Some,
            exists|now_ms: i64| #[trigger]
                old(self)@[index as int].steps(
                    now_ms as int,
                    issued(id),
                    final(self)@[index as int],
                ),
    {
        let now_ms = wall_clock_millis();
        let id = self.next_id_at(index, now_ms);
        assert(old(self)@[index as int].steps(now_ms as int, issued(id), self@[index as int]));
        id
    }
    /// Makes a request to the generator at `index` and, where it has to
    /// wait, reads the clock until it has passed the last tick and makes the
    /// request again; `polls` bounds the readings of the clock, the first one
    /// included. `None` when no identifier was issued; nothing has changed
    /// then. The index is not checked for the caller, as in
    /// [`Self::next_id_at`].
    pub fn next_id_within(&mut self, index: usize, polls: u32) -> (id: Option<i64>)
        requires
            old(self).wf(),
            index < old(self)@.len(),
        ensures
            final(self).wf(),
            final(self)@ == old(self)@.update(index as int, final(self)@[index as int]),
            !old(self)@[index as int].held_back() && polls > 0 ==> id is Some,
            match id {
                Some(_) => exists|now_ms: i64| #[trigger]
                    old(self)@[index as int].steps(
                        now_ms as int,
                        issued(id),
                        final(self)@[index as int],
                    ),
                None => final(self)@ == old(self)@ && (polls == 0 || old(
                    self,
                )@[index as int].held_back()),
            },
    {
        let id = self.generators[index].next_id_within(polls);
        assert(self@ =~= old(self)@.update(index as int, self@[index as int]));
        proof {
            if id.is_some() {
                let now_ms = choose|now_ms: i64| #[trigger]
                    old(self).generators@[index as int]@.steps(
                        now_ms as int,
                        issued(id),
                        self.generators@[index as int]@,
                    );
                assert(old(self)@[index as int].steps(
                    now_ms as int,
                    issued(id),
                    self@[index as int],
                ));
            } else {
                assert(self@ =~= old(self)@);
            }
        }
        id
    }
}

} // verus!
