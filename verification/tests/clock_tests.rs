use minimum_hw_project::clock::millis_since_epoch;
use minimum_hw_project::Timestamp;

#[test]
fn clock_readings_become_stamps() {
    assert_eq!(millis_since_epoch(None), 0);
    assert_eq!(millis_since_epoch(Some(1771488000000)), 1771488000000);
    assert_eq!(millis_since_epoch(Some(1u128 << 63)), i64::MIN);
    assert_eq!(millis_since_epoch(Some((1u128 << 64) + 5)), 5);
}

#[test]
fn clock_readings_become_timestamps() {
    assert_eq!(Timestamp::from_epoch_reading(None).nanos_since_epoch, 0);
    assert_eq!(Timestamp::from_epoch_reading(Some(17)).nanos_since_epoch, 17);
    assert_eq!(Timestamp::from_epoch_reading(Some(1u128 << 70)).nanos_since_epoch, u64::MAX);
    assert!(Timestamp::now().nanos_since_epoch > 1_577_836_800_000_000_000);
}
