use idgenerator::error::OptionError;
use idgenerator::generator::{CoreIdGenerator, InstanceOptions, SnowFlake};
use idgenerator::options::IdGeneratorOptions;

const NOW: i64 = 1_700_000_000_000;

fn defaults() -> InstanceOptions {
    InstanceOptions::default()
}

#[test]
fn defaults_resolve_to_documented_values() {
    let resolved = SnowFlake::check_options(defaults(), NOW).unwrap();
    assert_eq!(resolved.method, 1);
    assert_eq!(resolved.base_time, 1582136402000);
    assert_eq!(resolved.worker_id, 0);
    assert_eq!(resolved.worker_id_bit_len, 8);
    assert_eq!(resolved.seq_bit_len, 8);
    assert_eq!(resolved.max_seq_num, 255);
    assert_eq!(resolved.min_seq_num, 5);
    assert_eq!(resolved.top_over_cost_count, 2000);
}

#[test]
fn unset_options_convert_to_defaults() {
    let full = InstanceOptions::from(IdGeneratorOptions::new());
    assert_eq!(full.method, 1);
    assert_eq!(full.base_time, 1582136402000);
    assert_eq!(full.worker_id, 0);
    assert_eq!(full.worker_id_bit_len, 8);
    assert_eq!(full.seq_bit_len, 8);
    assert_eq!(full.max_seq_num, 0);
    assert_eq!(full.min_seq_num, 5);
    assert_eq!(full.top_over_cost_count, 2000);
    let full = InstanceOptions::from(IdGeneratorOptions::new().worker_id(9).max_seq_num(100));
    assert_eq!(full.worker_id, 9);
    assert_eq!(full.max_seq_num, 100);
    assert_eq!(full.seq_bit_len, 8);
}

#[test]
fn zero_base_time_takes_the_default_whatever_the_clock() {
    let options = InstanceOptions { base_time: 0, ..defaults() };
    let resolved = SnowFlake::check_options(options, 0).unwrap();
    assert_eq!(resolved.base_time, 1582136402000);
}

#[test]
fn base_time_before_1990_is_rejected() {
    let options = InstanceOptions { base_time: 631123199999, ..defaults() };
    assert_eq!(SnowFlake::check_options(options, NOW).unwrap_err(), OptionError::InvalidBaseTime);
    let options = InstanceOptions { base_time: 631123200000, ..defaults() };
    assert_eq!(SnowFlake::check_options(options, NOW).unwrap().base_time, 631123200000);
    let options = InstanceOptions { base_time: -5, ..defaults() };
    assert_eq!(SnowFlake::check_options(options, NOW).unwrap_err(), OptionError::InvalidBaseTime);
}

#[test]
fn base_time_after_the_clock_is_rejected() {
    let options = InstanceOptions { base_time: NOW + 1, ..defaults() };
    assert_eq!(SnowFlake::check_options(options, NOW).unwrap_err(), OptionError::InvalidBaseTime);
    let options = InstanceOptions { base_time: NOW, ..defaults() };
    assert_eq!(SnowFlake::check_options(options, NOW).unwrap().base_time, NOW);
}

#[test]
fn default_base_time_is_checked_against_the_clock_when_given() {
    let options = InstanceOptions { base_time: 1582136402000, ..defaults() };
    assert_eq!(
        SnowFlake::check_options(options, 1582136401999).unwrap_err(),
        OptionError::InvalidBaseTime
    );
}

#[test]
fn zero_worker_id_bit_len_is_rejected() {
    let options = InstanceOptions { worker_id_bit_len: 0, ..defaults() };
    assert_eq!(
        SnowFlake::check_options(options, NOW).unwrap_err(),
        OptionError::InvalidWorkerIdBitLen(
            "should have worker_id_bit_len in range [1, 21]".to_string()
        )
    );
}

#[test]
fn bit_lengths_over_22_are_rejected() {
    let options = InstanceOptions { worker_id_bit_len: 15, seq_bit_len: 8, ..defaults() };
    assert_eq!(
        SnowFlake::check_options(options, NOW).unwrap_err(),
        OptionError::BitLenOverflow("should have worker_id_bit_len + seq_bit_len <= 22".to_string())
    );
    let options = InstanceOptions { worker_id_bit_len: 14, seq_bit_len: 8, ..defaults() };
    assert!(SnowFlake::check_options(options, NOW).is_ok());
    let options = InstanceOptions { worker_id_bit_len: 200, seq_bit_len: 100, ..defaults() };
    assert_eq!(
        SnowFlake::check_options(options, NOW).unwrap_err(),
        OptionError::BitLenOverflow("should have worker_id_bit_len + seq_bit_len <= 22".to_string())
    );
}

#[test]
fn worker_id_over_the_field_is_rejected() {
    let options = InstanceOptions { worker_id: 256, ..defaults() };
    assert_eq!(
        SnowFlake::check_options(options, NOW).unwrap_err(),
        OptionError::InvalidWorkerId("should in range [0, 255]".to_string())
    );
    let options = InstanceOptions { worker_id: 255, ..defaults() };
    assert_eq!(SnowFlake::check_options(options, NOW).unwrap().worker_id, 255);
    let options =
        InstanceOptions { worker_id: 1048576, worker_id_bit_len: 20, seq_bit_len: 2, ..defaults() };
    assert_eq!(
        SnowFlake::check_options(options, NOW).unwrap_err(),
        OptionError::InvalidWorkerId("should in range [0, 1048575]".to_string())
    );
}

#[test]
fn seq_bit_len_outside_2_to_21_is_rejected() {
    let options = InstanceOptions { seq_bit_len: 1, ..defaults() };
    assert_eq!(
        SnowFlake::check_options(options, NOW).unwrap_err(),
        OptionError::InvalidSeqBitLen("should have seq_bit_len in range [2, 21]".to_string())
    );
    let options = InstanceOptions { seq_bit_len: 0, worker_id_bit_len: 22, ..defaults() };
    assert_eq!(
        SnowFlake::check_options(options, NOW).unwrap_err(),
        OptionError::InvalidSeqBitLen("should have seq_bit_len in range [2, 21]".to_string())
    );
    let options = InstanceOptions { seq_bit_len: 21, worker_id_bit_len: 1, ..defaults() };
    let resolved = SnowFlake::check_options(options, NOW).unwrap();
    assert_eq!(resolved.max_seq_num, 2097151);
}

#[test]
fn max_seq_num_over_the_field_is_rejected() {
    let options = InstanceOptions { max_seq_num: 256, ..defaults() };
    assert_eq!(
        SnowFlake::check_options(options, NOW).unwrap_err(),
        OptionError::InvalidMaxSeqNum("should in range [1, 255]".to_string())
    );
    let options = InstanceOptions { max_seq_num: 255, ..defaults() };
    assert_eq!(SnowFlake::check_options(options, NOW).unwrap().max_seq_num, 255);
    let options = InstanceOptions { seq_bit_len: 12, max_seq_num: 0, ..defaults() };
    assert_eq!(SnowFlake::check_options(options, NOW).unwrap().max_seq_num, 4095);
}

#[test]
fn min_seq_num_outside_5_to_max_is_rejected() {
    let options = InstanceOptions { min_seq_num: 4, ..defaults() };
    assert_eq!(
        SnowFlake::check_options(options, NOW).unwrap_err(),
        OptionError::InvalidMinSeqNum("should in range [5, 255]".to_string())
    );
    let options = InstanceOptions { min_seq_num: 256, ..defaults() };
    assert_eq!(
        SnowFlake::check_options(options, NOW).unwrap_err(),
        OptionError::InvalidMinSeqNum("should in range [5, 255]".to_string())
    );
    let options = InstanceOptions { min_seq_num: 255, ..defaults() };
    assert_eq!(SnowFlake::check_options(options, NOW).unwrap().min_seq_num, 255);
}

#[test]
fn min_seq_num_is_held_to_the_configured_maximum() {
    let options = InstanceOptions { max_seq_num: 100, min_seq_num: 101, ..defaults() };
    assert_eq!(
        SnowFlake::check_options(options, NOW).unwrap_err(),
        OptionError::InvalidMinSeqNum("should in range [5, 100]".to_string())
    );
    let options = InstanceOptions { max_seq_num: 100, min_seq_num: 100, ..defaults() };
    assert!(SnowFlake::check_options(options, NOW).is_ok());
    let options = InstanceOptions { seq_bit_len: 2, worker_id_bit_len: 6, ..defaults() };
    assert_eq!(
        SnowFlake::check_options(options, NOW).unwrap_err(),
        OptionError::InvalidMinSeqNum("should in range [5, 3]".to_string())
    );
}

#[test]
fn zero_top_over_cost_count_takes_the_default() {
    let options = InstanceOptions { top_over_cost_count: 0, ..defaults() };
    assert_eq!(SnowFlake::check_options(options, NOW).unwrap().top_over_cost_count, 2000);
    let options = InstanceOptions { top_over_cost_count: 7, ..defaults() };
    assert_eq!(SnowFlake::check_options(options, NOW).unwrap().top_over_cost_count, 7);
}

#[test]
fn method_is_not_checked() {
    let options = InstanceOptions { method: 2, ..defaults() };
    assert_eq!(SnowFlake::check_options(options, NOW).unwrap().method, 2);
}

#[test]
fn the_first_broken_rule_is_reported() {
    let options = InstanceOptions {
        base_time: 12,
        worker_id_bit_len: 0,
        seq_bit_len: 1,
        worker_id: 4000000000,
        max_seq_num: 4000000000,
        min_seq_num: 0,
        ..defaults()
    };
    assert_eq!(SnowFlake::check_options(options, NOW).unwrap_err(), OptionError::InvalidBaseTime);
    let options = InstanceOptions { base_time: 0, ..options };
    assert_eq!(
        SnowFlake::check_options(options, NOW).unwrap_err(),
        OptionError::InvalidWorkerIdBitLen(
            "should have worker_id_bit_len in range [1, 21]".to_string()
        )
    );
    let options = InstanceOptions { worker_id_bit_len: 22, ..options };
    assert_eq!(
        SnowFlake::check_options(options, NOW).unwrap_err(),
        OptionError::BitLenOverflow("should have worker_id_bit_len + seq_bit_len <= 22".to_string())
    );
    let options = InstanceOptions { worker_id_bit_len: 21, ..options };
    assert_eq!(
        SnowFlake::check_options(options, NOW).unwrap_err(),
        OptionError::InvalidWorkerId("should in range [0, 2097151]".to_string())
    );
    let options = InstanceOptions { worker_id: 7, ..options };
    assert_eq!(
        SnowFlake::check_options(options, NOW).unwrap_err(),
        OptionError::InvalidSeqBitLen("should have seq_bit_len in range [2, 21]".to_string())
    );
    let options = InstanceOptions { worker_id_bit_len: 6, seq_bit_len: 8, ..options };
    assert_eq!(
        SnowFlake::check_options(options, NOW).unwrap_err(),
        OptionError::InvalidMaxSeqNum("should in range [1, 255]".to_string())
    );
    let options = InstanceOptions { max_seq_num: 0, ..options };
    assert_eq!(
        SnowFlake::check_options(options, NOW).unwrap_err(),
        OptionError::InvalidMinSeqNum("should in range [5, 255]".to_string())
    );
}

#[test]
fn concrete_scenario_of_the_default_generator() {
    let mut generator = CoreIdGenerator::default();
    let options = IdGeneratorOptions::new()
        .base_time(1582136402000)
        .worker_id(1)
        .worker_id_bit_len(6)
        .seq_bit_len(8);
    assert_eq!(generator.init_at(options, NOW), Ok(()));
    let got = generator.get_options();
    assert_eq!(got.max_seq_num, Some(255));
    assert_eq!(got.min_seq_num, Some(5));
    assert_eq!(got.top_over_cost_count, Some(2000));
    assert_eq!(
        generator.set_options_at(IdGeneratorOptions::new().worker_id_bit_len(18), NOW),
        Err(OptionError::BitLenOverflow(
            "should have worker_id_bit_len + seq_bit_len <= 22".to_string()
        ))
    );
}

#[test]
fn set_options_changes_what_is_set_and_keeps_the_rest() {
    let mut generator = CoreIdGenerator::default();
    let options = IdGeneratorOptions::new().worker_id(3).worker_id_bit_len(6).min_seq_num(10);
    assert_eq!(generator.init_at(options, NOW), Ok(()));
    let before = generator.get_options();
    let partial = IdGeneratorOptions::new().seq_bit_len(12).top_over_cost_count(50).method(2);
    assert_eq!(generator.set_options_at(partial, NOW), Ok(()));
    let after = generator.get_options();
    assert_eq!(after.seq_bit_len, Some(12));
    assert_eq!(after.top_over_cost_count, Some(50));
    assert_eq!(after.method, Some(2));
    assert_eq!(after.base_time, before.base_time);
    assert_eq!(after.worker_id, before.worker_id);
    assert_eq!(after.worker_id_bit_len, before.worker_id_bit_len);
    assert_eq!(after.max_seq_num, before.max_seq_num);
    assert_eq!(after.min_seq_num, before.min_seq_num);
    assert_eq!(after.max_seq_num, Some(255));
    assert_eq!(after.min_seq_num, Some(10));
}

#[test]
fn set_options_with_zero_takes_the_defaults() {
    let mut generator = CoreIdGenerator::default();
    let options = IdGeneratorOptions::new()
        .base_time(1600000000000)
        .max_seq_num(100)
        .top_over_cost_count(9);
    assert_eq!(generator.init_at(options, NOW), Ok(()));
    let partial = IdGeneratorOptions::new().base_time(0).max_seq_num(0).top_over_cost_count(0);
    assert_eq!(generator.set_options_at(partial, NOW), Ok(()));
    let after = generator.get_options();
    assert_eq!(after.base_time, Some(1582136402000));
    assert_eq!(after.max_seq_num, Some(255));
    assert_eq!(after.top_over_cost_count, Some(2000));
}

#[test]
fn rejected_options_change_nothing() {
    let mut generator = CoreIdGenerator::default();
    let options = IdGeneratorOptions::new().worker_id(1).worker_id_bit_len(6);
    assert_eq!(generator.init_at(options, NOW), Ok(()));
    let first = generator.next_id_at(1582136402000 + 100).unwrap();
    let before = generator.get_options();
    let partial = IdGeneratorOptions::new().seq_bit_len(12).worker_id(64);
    assert_eq!(
        generator.set_options_at(partial, NOW),
        Err(OptionError::InvalidWorkerId("should in range [0, 63]".to_string()))
    );
    assert_eq!(generator.get_options(), before);
    assert_eq!(generator.next_id_at(1582136402000 + 100), Some(first + 1));
}

#[test]
fn the_shifting_mode_asks_for_a_pause() {
    let mut generator = CoreIdGenerator::default();
    assert_eq!(generator.settling_delay_millis(), 500);
    assert_eq!(generator.init_at(IdGeneratorOptions::new().method(2), NOW), Ok(()));
    assert_eq!(generator.settling_delay_millis(), 0);
    assert_eq!(generator.set_options_at(IdGeneratorOptions::new().method(1), NOW), Ok(()));
    assert_eq!(generator.settling_delay_millis(), 500);
}

#[test]
fn builders_set_one_field_each() {
    let options = IdGeneratorOptions::new();
    assert_eq!(options, IdGeneratorOptions::default());
    assert_eq!(
        options,
        IdGeneratorOptions {
            method: None,
            base_time: None,
            worker_id: None,
            worker_id_bit_len: None,
            seq_bit_len: None,
            max_seq_num: None,
            min_seq_num: None,
            top_over_cost_count: None,
        }
    );
    let options = IdGeneratorOptions::new()
        .method(3)
        .base_time(4)
        .worker_id(5)
        .worker_id_bit_len(6)
        .seq_bit_len(7)
        .max_seq_num(8)
        .min_seq_num(9)
        .top_over_cost_count(10);
    assert_eq!(
        options,
        IdGeneratorOptions {
            method: Some(3),
            base_time: Some(4),
            worker_id: Some(5),
            worker_id_bit_len: Some(6),
            seq_bit_len: Some(7),
            max_seq_num: Some(8),
            min_seq_num: Some(9),
            top_over_cost_count: Some(10),
        }
    );
}
