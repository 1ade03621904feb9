use witnet_core::{Epoch, EpochManager, EpochManagerError};

fn manager(zero: i64, period: u64) -> EpochManager {
    let mut m = EpochManager::default();
    m.set_epoch_zero(zero);
    m.set_period(period);
    m
}

#[test]
fn epoch_at_unknown_epoch_zero() {
    let mut m = EpochManager::default();
    m.set_period(10);
    assert_eq!(m.epoch_at(100), Err(EpochManagerError::UnknownEpochZero));
    assert_eq!(EpochManager::default().epoch_at(0), Err(EpochManagerError::UnknownEpochZero));
}

#[test]
fn epoch_at_unknown_period() {
    let mut m = EpochManager::default();
    m.set_epoch_zero(0);
    assert_eq!(m.epoch_at(100), Err(EpochManagerError::UnknownCheckpointPeriod));
}

#[test]
fn epoch_at_before_epoch_zero() {
    let m = manager(1000, 10);
    assert_eq!(m.epoch_at(999), Err(EpochManagerError::EpochZeroInTheFuture));
}

#[test]
fn epoch_at_values() {
    let m = manager(1000, 10);
    assert_eq!(m.epoch_at(1000), Ok(Epoch(0)));
    assert_eq!(m.epoch_at(1009), Ok(Epoch(0)));
    assert_eq!(m.epoch_at(1010), Ok(Epoch(1)));
    assert_eq!(m.epoch_at(1255), Ok(Epoch(25)));
    let n = manager(-50, 7);
    assert_eq!(n.epoch_at(-50), Ok(Epoch(0)));
    assert_eq!(n.epoch_at(0), Ok(Epoch(7)));
}

#[test]
fn set_period_zero_becomes_one() {
    let m = manager(0, 0);
    assert_eq!(m.epoch_at(42), Ok(Epoch(42)));
    assert_eq!(m.epoch_timestamp(Epoch(42)), Ok(42));
}

#[test]
fn epoch_timestamp_values() {
    let m = manager(1000, 10);
    assert_eq!(m.epoch_timestamp(Epoch(0)), Ok(1000));
    assert_eq!(m.epoch_timestamp(Epoch(25)), Ok(1250));
    let n = manager(-100, 3);
    assert_eq!(n.epoch_timestamp(Epoch(10)), Ok(-70));
}

#[test]
fn epoch_timestamp_unknown() {
    let mut m = EpochManager::default();
    assert_eq!(m.epoch_timestamp(Epoch(1)), Err(EpochManagerError::UnknownEpochZero));
    m.set_epoch_zero(5);
    assert_eq!(m.epoch_timestamp(Epoch(1)), Err(EpochManagerError::UnknownCheckpointPeriod));
}

#[test]
fn epoch_timestamp_overflow() {
    // the product overflows u64
    let m = manager(0, u64::MAX);
    assert_eq!(m.epoch_timestamp(Epoch(2)), Err(EpochManagerError::Overflow));
    // the product fits u64 but not i64
    let m = manager(0, 1u64 << 62);
    assert_eq!(m.epoch_timestamp(Epoch(2)), Err(EpochManagerError::Overflow));
    // the sum overflows i64
    let m = manager(i64::MAX, 1);
    assert_eq!(m.epoch_timestamp(Epoch(1)), Err(EpochManagerError::Overflow));
    // the largest representable start
    let m = manager(0, 1);
    assert_eq!(m.epoch_timestamp(Epoch(i64::MAX as u64)), Ok(i64::MAX));
    // a negative epoch zero keeps a product past i64::MAX out of reach
    let m = manager(-10, 1);
    assert_eq!(m.epoch_timestamp(Epoch(i64::MAX as u64 + 1)), Err(EpochManagerError::Overflow));
}

#[test]
fn epoch_start_lies_in_its_epoch() {
    let m = manager(1_000_000, 90);
    for e in [0u64, 1, 2, 17, 12345] {
        let t = m.epoch_timestamp(Epoch(e)).unwrap();
        assert_eq!(m.epoch_at(t), Ok(Epoch(e)));
        assert_eq!(m.epoch_at(t + 89), Ok(Epoch(e)));
        assert_eq!(m.epoch_at(t + 90), Ok(Epoch(e + 1)));
    }
}

#[test]
fn epoch_at_is_monotonic() {
    let m = manager(10, 4);
    let mut last = 0;
    for t in 10..200 {
        let e = m.epoch_at(t).unwrap().0;
        assert!(e >= last);
        last = e;
    }
}

#[test]
fn setters_keep_the_other_value() {
    let mut m = manager(100, 5);
    m.set_epoch_zero(200);
    assert_eq!(m.epoch_at(210), Ok(Epoch(2)));
    m.set_period(10);
    assert_eq!(m.epoch_at(210), Ok(Epoch(1)));
}

#[test]
fn process_config_sets_both_values() {
    let mut m = EpochManager::default();
    m.process_config(1_000_000, 90);
    assert_eq!(m.epoch_at(1_000_090), Ok(Epoch(1)));
    assert_eq!(m.epoch_timestamp(Epoch(2)), Ok(1_000_180));
    let mut z = EpochManager::default();
    z.process_config(5, 0);
    assert_eq!(z.epoch_at(8), Ok(Epoch(3)));
}

#[test]
fn epoch_at_unknown_period_with_far_timestamp() {
    let mut m = EpochManager::default();
    m.set_epoch_zero(i64::MAX);
    assert_eq!(m.epoch_at(i64::MIN), Err(EpochManagerError::UnknownCheckpointPeriod));
}
