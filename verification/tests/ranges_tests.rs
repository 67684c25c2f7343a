use mock_event_source::ranges::{AccelRange, FilterBandwidthHz, GyroRange};

#[test]
fn accel_range_values() {
    assert_eq!(AccelRange::Range2G.value(), 2);
    assert_eq!(AccelRange::Range4G.value(), 4);
    assert_eq!(AccelRange::Range8G.value(), 8);
    assert_eq!(AccelRange::Range16G.value(), 16);
}

#[test]
fn gyro_range_values() {
    assert_eq!(GyroRange::Range250DPS.value(), 250);
    assert_eq!(GyroRange::Range500DPS.value(), 500);
    assert_eq!(GyroRange::Range1000DPS.value(), 1000);
    assert_eq!(GyroRange::Range2000DPS.value(), 2000);
}

#[test]
fn filter_bandwidth_values() {
    assert_eq!(FilterBandwidthHz::BandWidth260.value(), 260);
    assert_eq!(FilterBandwidthHz::BandWidth184.value(), 184);
    assert_eq!(FilterBandwidthHz::BandWidth94.value(), 94);
    assert_eq!(FilterBandwidthHz::BandWidth44.value(), 44);
    assert_eq!(FilterBandwidthHz::BandWidth21.value(), 21);
    assert_eq!(FilterBandwidthHz::BandWidth10.value(), 10);
    assert_eq!(FilterBandwidthHz::BandWidth5.value(), 5);
}

#[test]
fn defaults_are_8g_500dps_21hz() {
    assert_eq!(AccelRange::default(), AccelRange::Range8G);
    assert_eq!(GyroRange::default(), GyroRange::Range500DPS);
    assert_eq!(FilterBandwidthHz::default(), FilterBandwidthHz::BandWidth21);
}

#[test]
fn accel_range_from_u32_accepts_the_set_only() {
    assert_eq!(AccelRange::from_u32(2), Some(AccelRange::Range2G));
    assert_eq!(AccelRange::from_u32(4), Some(AccelRange::Range4G));
    assert_eq!(AccelRange::from_u32(8), Some(AccelRange::Range8G));
    assert_eq!(AccelRange::from_u32(16), Some(AccelRange::Range16G));
    assert_eq!(AccelRange::from_u32(0), None);
    assert_eq!(AccelRange::from_u32(3), None);
    assert_eq!(AccelRange::from_u32(32), None);
    assert_eq!(AccelRange::from_u32(u32::MAX), None);
}

#[test]
fn gyro_range_from_u32_accepts_the_set_only() {
    assert_eq!(GyroRange::from_u32(250), Some(GyroRange::Range250DPS));
    assert_eq!(GyroRange::from_u32(500), Some(GyroRange::Range500DPS));
    assert_eq!(GyroRange::from_u32(1000), Some(GyroRange::Range1000DPS));
    assert_eq!(GyroRange::from_u32(2000), Some(GyroRange::Range2000DPS));
    assert_eq!(GyroRange::from_u32(0), None);
    assert_eq!(GyroRange::from_u32(251), None);
    assert_eq!(GyroRange::from_u32(4000), None);
}

#[test]
fn filter_bandwidth_from_u32_accepts_the_set_only() {
    for raw in [260u32, 184, 94, 44, 21, 10, 5] {
        let bandwidth = FilterBandwidthHz::from_u32(raw);
        assert!(bandwidth.is_some());
        assert_eq!(bandwidth.unwrap().value(), raw);
    }
    assert_eq!(FilterBandwidthHz::from_u32(0), None);
    assert_eq!(FilterBandwidthHz::from_u32(20), None);
    assert_eq!(FilterBandwidthHz::from_u32(261), None);
}

#[test]
fn every_range_round_trips_through_its_value() {
    for raw in 0u32..2100 {
        if let Some(range) = AccelRange::from_u32(raw) {
            assert_eq!(range.value(), raw);
        }
        if let Some(range) = GyroRange::from_u32(raw) {
            assert_eq!(range.value(), raw);
        }
        if let Some(bandwidth) = FilterBandwidthHz::from_u32(raw) {
            assert_eq!(bandwidth.value(), raw);
        }
    }
}

#[test]
fn out_of_set_values_fall_back_to_the_default() {
    assert_eq!(AccelRange::from_u32_or_default(16), AccelRange::Range16G);
    assert_eq!(AccelRange::from_u32_or_default(5), AccelRange::Range8G);
    assert_eq!(GyroRange::from_u32_or_default(2000), GyroRange::Range2000DPS);
    assert_eq!(GyroRange::from_u32_or_default(7), GyroRange::Range500DPS);
    assert_eq!(FilterBandwidthHz::from_u32_or_default(5), FilterBandwidthHz::BandWidth5);
    assert_eq!(FilterBandwidthHz::from_u32_or_default(6), FilterBandwidthHz::BandWidth21);
}
