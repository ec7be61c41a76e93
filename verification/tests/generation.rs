use idgenerator::generator::{CoreIdGenerator, SnowFlake};
use idgenerator::options::IdGeneratorOptions;
use std::collections::HashSet;

const BASE: i64 = 1582136402000;
const NOW: i64 = 1_700_000_000_000;

fn generator(options: IdGeneratorOptions) -> CoreIdGenerator {
    let mut generator = CoreIdGenerator::default();
    assert_eq!(generator.init_at(options, NOW), Ok(()));
    generator
}

fn id_of(tick: i64, shift: u32, worker_id: i64, seq_bit_len: u32, low: i64) -> i64 {
    (tick << shift) + (worker_id << seq_bit_len) + low
}

#[test]
fn identifier_packs_tick_worker_and_sequence() {
    let mut generator = generator(IdGeneratorOptions::new().worker_id(1).worker_id_bit_len(6));
    assert_eq!(generator.next_id_at(BASE + 1000), Some(16384261));
    assert_eq!(generator.next_id_at(BASE + 1000), Some(16384262));
    assert_eq!(generator.next_id_at(BASE + 1001), Some(id_of(1001, 14, 1, 8, 5)));
}

#[test]
fn default_generator_issues_from_the_default_layout() {
    let mut worker = SnowFlake::default();
    assert_eq!(worker.next_id_at(BASE + 7), Some(7 * 65536 + 5));
    assert_eq!(worker.next_id_at(BASE + 7), Some(7 * 65536 + 6));
    assert_eq!(worker.next_id_at(BASE + 9), Some(9 * 65536 + 5));
}

#[test]
fn first_request_at_the_base_time_uses_tick_zero() {
    let mut worker = SnowFlake::default();
    assert_eq!(worker.next_id_at(BASE), Some(5));
    assert_eq!(worker.next_id_at(BASE), Some(6));
}

#[test]
fn used_up_sequence_takes_the_next_tick_ahead_of_the_clock() {
    let mut generator = generator(
        IdGeneratorOptions::new()
            .worker_id(1)
            .worker_id_bit_len(6)
            .max_seq_num(7)
            .top_over_cost_count(2),
    );
    let at = |tick, low| Some(id_of(tick, 14, 1, 8, low));
    assert_eq!(generator.next_id_at(BASE + 100), at(100, 5));
    assert_eq!(generator.next_id_at(BASE + 100), at(100, 6));
    assert_eq!(generator.next_id_at(BASE + 100), at(100, 7));
    // The sequence of tick 100 is used up: the generator runs ahead.
    assert_eq!(generator.next_id_at(BASE + 100), at(101, 5));
    assert_eq!(generator.next_id_at(BASE + 100), at(101, 6));
    // A clock that is still behind the generator is not a turned-back clock.
    assert_eq!(generator.next_id_at(BASE + 99), at(101, 7));
    assert_eq!(generator.next_id_at(BASE + 101), at(102, 5));
    // Two ticks were taken ahead of the clock, as many as allowed: wait.
    assert_eq!(generator.next_id_at(BASE + 101), None);
    assert_eq!(generator.next_id_at(BASE + 102), None);
    assert_eq!(generator.next_id_at(BASE + 103), at(103, 5));
    assert_eq!(generator.next_id_at(BASE + 103), at(103, 6));
}

#[test]
fn clock_that_passes_ends_the_run_ahead() {
    let mut generator = generator(
        IdGeneratorOptions::new().worker_id(1).worker_id_bit_len(6).max_seq_num(6),
    );
    let at = |tick, low| Some(id_of(tick, 14, 1, 8, low));
    assert_eq!(generator.next_id_at(BASE + 100), at(100, 5));
    assert_eq!(generator.next_id_at(BASE + 100), at(100, 6));
    assert_eq!(generator.next_id_at(BASE + 100), at(101, 5));
    assert_eq!(generator.next_id_at(BASE + 105), at(105, 5));
    assert_eq!(generator.next_id_at(BASE + 105), at(105, 6));
    assert_eq!(generator.next_id_at(BASE + 105), at(106, 5));
}

#[test]
fn turned_back_clock_counts_down_with_an_index() {
    let mut generator = generator(IdGeneratorOptions::new().worker_id(1).worker_id_bit_len(6));
    let at = |tick, low| Some(id_of(tick, 14, 1, 8, low));
    assert_eq!(generator.next_id_at(BASE + 100), at(100, 5));
    assert_eq!(generator.next_id_at(BASE + 98), at(99, 1));
    assert_eq!(generator.next_id_at(BASE + 98), at(98, 1));
    assert_eq!(generator.next_id_at(BASE + 50), at(97, 1));
    // The clock has caught up: the sequence of tick 100 goes on.
    assert_eq!(generator.next_id_at(BASE + 100), at(100, 6));
    // Turned back again: the next index.
    assert_eq!(generator.next_id_at(BASE + 99), at(99, 2));
    assert_eq!(generator.next_id_at(BASE + 101), at(101, 5));
    assert_eq!(generator.next_id_at(BASE + 100), at(100, 3));
    assert_eq!(generator.next_id_at(BASE + 101), at(101, 6));
    assert_eq!(generator.next_id_at(BASE + 100), at(100, 4));
    assert_eq!(generator.next_id_at(BASE + 101), at(101, 7));
    // The fifth turn takes the index of the first again.
    assert_eq!(generator.next_id_at(BASE + 100), at(100, 1));
}

#[test]
fn turn_that_reaches_tick_zero_begins_the_next_turn() {
    let mut generator = generator(IdGeneratorOptions::new().worker_id(1).worker_id_bit_len(6));
    let at = |tick, low| Some(id_of(tick, 14, 1, 8, low));
    assert_eq!(generator.next_id_at(BASE + 3), at(3, 5));
    assert_eq!(generator.next_id_at(BASE), at(2, 1));
    assert_eq!(generator.next_id_at(BASE), at(1, 1));
    assert_eq!(generator.next_id_at(BASE), at(2, 2));
    assert_eq!(generator.next_id_at(BASE), at(1, 2));
    assert_eq!(generator.next_id_at(BASE), at(2, 3));
}

#[test]
fn clock_before_the_base_time_still_issues() {
    let mut worker = SnowFlake::default();
    // Tick -1 with index 1, then, as no turn is under way below tick 1,
    // tick -1 again with index 2.
    assert_eq!(worker.next_id_at(BASE - 1), Some(-65535));
    assert_eq!(worker.next_id_at(0), Some(-65534));
}

#[test]
fn extreme_clock_readings_do_not_fail() {
    let mut worker = SnowFlake::default();
    assert!(worker.next_id_at(i64::MAX).is_some());
    assert!(worker.next_id_at(i64::MIN).is_some());
    assert!(worker.next_id_at(i64::MIN).is_some());
    assert!(worker.next_id_at(i64::MAX).is_some());
    assert!(worker.next_id_at(BASE).is_some());
}

#[test]
fn tick_beyond_the_field_wraps() {
    let mut worker = SnowFlake::default();
    let tick: i64 = 1 << 47;
    assert_eq!(worker.next_id_at(BASE + tick), Some(i64::MIN + 5));
    let tick: i64 = 1 << 48;
    assert_eq!(worker.next_id_at(BASE + tick), Some(5));
}

#[test]
fn counter_of_a_long_term_wraps_without_failing() {
    let mut generator = generator(
        IdGeneratorOptions::new()
            .worker_id_bit_len(1)
            .seq_bit_len(21)
            .top_over_cost_count(4000000000),
    );
    let mut last = generator.next_id_at(BASE + 1).unwrap();
    let mut count: u64 = 1;
    while count < 3_000_000 {
        let id = generator.next_id_at(BASE + 1).unwrap();
        assert!(id > last);
        last = id;
        count += 1;
    }
}

#[test]
fn identifiers_increase_while_the_clock_does_not_turn_back() {
    let mut generator = generator(
        IdGeneratorOptions::new().worker_id(5).worker_id_bit_len(6).max_seq_num(20),
    );
    let mut last = -1;
    let mut now = BASE + 10;
    let mut issued = 0;
    let mut step = 0;
    while issued < 20000 {
        if step % 7 == 0 {
            now += 1;
        }
        step += 1;
        if let Some(id) = generator.next_id_at(now) {
            assert!(id > last);
            last = id;
            issued += 1;
        } else {
            now += 1;
        }
    }
}

#[test]
fn identifiers_are_distinct_over_four_turns() {
    let mut generator = generator(
        IdGeneratorOptions::new().worker_id(5).worker_id_bit_len(6).max_seq_num(9),
    );
    let mut seen: HashSet<i64> = HashSet::new();
    let readings: [(i64, usize); 9] = [
        (1000, 40),
        (990, 5),
        (1010, 40),
        (1005, 8),
        (1020, 40),
        (1000, 12),
        (1030, 40),
        (1029, 3),
        (1040, 40),
    ];
    for (tick, requests) in readings {
        let mut made = 0;
        let mut now = BASE + tick;
        while made < requests {
            match generator.next_id_at(now) {
                Some(id) => {
                    assert!(seen.insert(id));
                    made += 1;
                }
                None => now += 1,
            }
        }
    }
    assert_eq!(seen.len(), 228);
}

#[test]
fn generators_with_different_worker_ids_never_collide() {
    let mut first = generator(IdGeneratorOptions::new().worker_id(1).worker_id_bit_len(6));
    let mut second = generator(IdGeneratorOptions::new().worker_id(2).worker_id_bit_len(6));
    let mut seen: HashSet<i64> = HashSet::new();
    let ticks: [i64; 6] = [100, 100, 99, 100, 101, 90];
    for tick in ticks {
        for _ in 0..300 {
            if let Some(id) = first.next_id_at(BASE + tick) {
                assert!(seen.insert(id));
                assert_eq!((id >> 8) & 63, 1);
            }
            if let Some(id) = second.next_id_at(BASE + tick + 1) {
                assert!(seen.insert(id));
                assert_eq!((id >> 8) & 63, 2);
            }
        }
    }
}

#[test]
fn low_field_tells_the_two_kinds_of_identifier_apart() {
    let mut generator = generator(IdGeneratorOptions::new().worker_id(1).worker_id_bit_len(6));
    let regular = generator.next_id_at(BASE + 100).unwrap();
    let turned = generator.next_id_at(BASE + 50).unwrap();
    assert!((regular & 255) >= 5);
    assert!((turned & 255) >= 1 && (turned & 255) <= 4);
}

#[test]
fn new_options_start_the_sequence_over() {
    let mut generator = generator(IdGeneratorOptions::new().worker_id(1).worker_id_bit_len(6));
    assert_eq!(generator.next_id_at(BASE + 100), Some(id_of(100, 14, 1, 8, 5)));
    assert_eq!(generator.next_id_at(BASE + 100), Some(id_of(100, 14, 1, 8, 6)));
    assert_eq!(generator.set_options_at(IdGeneratorOptions::new().min_seq_num(9), NOW), Ok(()));
    assert_eq!(generator.next_id_at(BASE + 100), Some(id_of(100, 14, 1, 8, 9)));
    assert_eq!(generator.set_options_at(IdGeneratorOptions::new().seq_bit_len(10), NOW), Ok(()));
    assert_eq!(generator.next_id_at(BASE + 101), Some(id_of(101, 16, 1, 10, 9)));
}

#[test]
fn real_clock_gives_a_tick_close_to_now() {
    let mut generator = generator(IdGeneratorOptions::new().worker_id(1).worker_id_bit_len(6));
    let before = chrono::Utc::now().timestamp_millis() - BASE;
    let id = generator.next_id().unwrap();
    let after = chrono::Utc::now().timestamp_millis() - BASE;
    let tick = id >> 14;
    assert!(before <= tick && tick <= after);
    assert_eq!((id >> 8) & 63, 1);
    assert_eq!(id & 255, 5);
}

#[test]
fn real_clock_validates_the_base_time() {
    let mut generator = CoreIdGenerator::default();
    let now = chrono::Utc::now().timestamp_millis();
    assert!(generator.init(IdGeneratorOptions::new().base_time(now - 1000)).is_ok());
    assert!(generator.init(IdGeneratorOptions::new().base_time(now + 100000)).is_err());
    assert!(generator.set_options(IdGeneratorOptions::new().base_time(now + 100000)).is_err());
    assert_eq!(generator.get_options().base_time, Some(now - 1000));
}

#[test]
fn bounded_wait_gives_up_while_the_clock_stands_behind() {
    let mut generator = CoreIdGenerator::default();
    let now = chrono::Utc::now().timestamp_millis();
    let options = IdGeneratorOptions::new()
        .base_time(now - 1000)
        .max_seq_num(5)
        .top_over_cost_count(1);
    assert!(generator.init(options).is_ok());
    // A reading far ahead of the clock, then a used-up sequence: the
    // generator runs ahead of the real clock by an hour and is held back.
    let far = now + 3_600_000;
    let first = generator.next_id_at(far).unwrap();
    let second = generator.next_id_at(far).unwrap();
    assert!(second > first);
    assert_eq!(generator.next_id_at(far), None);
    assert_eq!(generator.next_id_within(0), None);
    assert_eq!(generator.next_id(), None);
    assert_eq!(generator.next_id_within(1000), None);
    let third = generator.next_id_at(far + 2).unwrap();
    assert!(third > second);
}

#[test]
fn bounded_wait_issues_at_once_where_nothing_holds_back() {
    let mut worker = SnowFlake::default();
    let first = worker.next_id_within(1).unwrap();
    let second = worker.next_id_within(5).unwrap();
    assert!(second > first);
    assert_eq!(worker.next_id_within(0), None);
}

#[test]
fn fifth_turn_takes_the_index_of_the_first_again() {
    let mut generator = generator(IdGeneratorOptions::new().worker_id(1).worker_id_bit_len(6));
    let at = |tick, low| Some(id_of(tick, 14, 1, 8, low));
    assert_eq!(generator.next_id_at(BASE + 3), at(3, 5));
    let first = generator.next_id_at(BASE);
    assert_eq!(first, at(2, 1));
    for index in 1..=4 {
        if index > 1 {
            assert_eq!(generator.next_id_at(BASE), at(2, index));
        }
        assert_eq!(generator.next_id_at(BASE), at(1, index));
    }
    assert_eq!(generator.next_id_at(BASE), first);
}

#[test]
fn standing_clock_fills_tick_after_tick_in_order() {
    let mut generator = generator(
        IdGeneratorOptions::new().worker_id(1).worker_id_bit_len(6).max_seq_num(7),
    );
    let capacity = 3;
    let mut last = -1;
    for k in 0..300 {
        let id = generator.next_id_at(BASE + 500).unwrap();
        assert_eq!(id, id_of(500 + k / capacity, 14, 1, 8, 5 + k % capacity));
        assert!(id > last);
        last = id;
    }
}

#[test]
fn standing_clock_holds_the_generator_back_at_the_top_count() {
    let mut generator = generator(
        IdGeneratorOptions::new()
            .worker_id(1)
            .worker_id_bit_len(6)
            .max_seq_num(7)
            .top_over_cost_count(4),
    );
    let capacity = 3;
    for k in 0..(capacity * 4) {
        let id = generator.next_id_at(BASE + 500);
        assert_eq!(id, Some(id_of(500 + k / capacity, 14, 1, 8, 5 + k % capacity)));
    }
    assert_eq!(generator.next_id_at(BASE + 500), Some(id_of(504, 14, 1, 8, 5)));
    assert_eq!(generator.next_id_at(BASE + 500), None);
    assert_eq!(generator.next_id_at(BASE + 504), None);
    assert_eq!(generator.next_id_at(BASE + 505), Some(id_of(505, 14, 1, 8, 5)));
}

#[test]
fn turn_under_way_counts_down_tick_by_tick() {
    let mut generator = generator(IdGeneratorOptions::new().worker_id(1).worker_id_bit_len(6));
    assert_eq!(generator.next_id_at(BASE + 1000), Some(id_of(1000, 14, 1, 8, 5)));
    let mut seen = HashSet::new();
    for j in 0..999 {
        let id = generator.next_id_at(BASE + 10).unwrap();
        assert_eq!(id, id_of(999 - j, 14, 1, 8, 1));
        assert!(seen.insert(id));
    }
    assert_eq!(generator.next_id_at(BASE + 10), Some(id_of(999, 14, 1, 8, 2)));
    assert_eq!(generator.next_id_at(BASE + 1000), Some(id_of(1000, 14, 1, 8, 6)));
}

#[test]
fn clock_that_never_falls_gives_increasing_identifiers() {
    let mut worker = SnowFlake::default();
    let mut last = -1;
    let mut now = BASE;
    for step in 0..50000 {
        if step % 1000 == 999 {
            now += 3;
        }
        match worker.next_id_at(now) {
            Some(id) => {
                assert!(id > last);
                assert!((id & 255) >= 5);
                last = id;
            }
            None => now += 1,
        }
    }
}
