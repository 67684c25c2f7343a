use mock_event_source::config::{Configuration, Parameters, PartialConfiguration};
use mock_event_source::ranges::{AccelRange, FilterBandwidthHz, GyroRange};

#[test]
fn default_configuration() {
    let configuration = Configuration::default();
    assert_eq!(configuration.empty_weight, "0.0");
    assert_eq!(configuration.water_weight, "0.0");
    assert_eq!(configuration.air_pressure, "0.0");
    assert_eq!(configuration.accel_range, AccelRange::Range8G);
    assert_eq!(configuration.gyro_range, GyroRange::Range500DPS);
    assert_eq!(configuration.filter_bandwidth, FilterBandwidthHz::BandWidth21);
}

#[test]
fn empty_update_changes_nothing() {
    let mut configuration = Configuration::default();
    configuration.merge(PartialConfiguration::empty());
    assert_eq!(configuration, Configuration::default());
}

#[test]
fn merge_overwrites_only_the_supplied_field() {
    let mut configuration = Configuration::default();
    let mut partial = PartialConfiguration::empty();
    partial.accel_range = Some(AccelRange::Range16G);
    configuration.merge(partial);
    let mut expected = Configuration::default();
    expected.accel_range = AccelRange::Range16G;
    assert_eq!(configuration, expected);
    assert_eq!(configuration.gyro_range, GyroRange::Range500DPS);
}

#[test]
fn merge_overwrites_every_supplied_field() {
    let mut configuration = Configuration::default();
    configuration.merge(PartialConfiguration {
        empty_weight: Some("120.5".to_string()),
        water_weight: Some("not a number".to_string()),
        air_pressure: Some("".to_string()),
        accel_range: Some(AccelRange::Range2G),
        gyro_range: Some(GyroRange::Range250DPS),
        filter_bandwidth: Some(FilterBandwidthHz::BandWidth260),
    });
    assert_eq!(
        configuration,
        Configuration {
            empty_weight: "120.5".to_string(),
            water_weight: "not a number".to_string(),
            air_pressure: "".to_string(),
            accel_range: AccelRange::Range2G,
            gyro_range: GyroRange::Range250DPS,
            filter_bandwidth: FilterBandwidthHz::BandWidth260,
        }
    );
}

#[test]
fn later_updates_build_on_earlier_ones() {
    let mut configuration = Configuration::default();
    let mut first = PartialConfiguration::empty();
    first.empty_weight = Some("1.5".to_string());
    first.gyro_range = Some(GyroRange::Range1000DPS);
    configuration.merge(first);
    let mut second = PartialConfiguration::empty();
    second.water_weight = Some("0.75".to_string());
    configuration.merge(second);
    assert_eq!(configuration.empty_weight, "1.5");
    assert_eq!(configuration.water_weight, "0.75");
    assert_eq!(configuration.air_pressure, "0.0");
    assert_eq!(configuration.gyro_range, GyroRange::Range1000DPS);
    assert_eq!(configuration.accel_range, AccelRange::Range8G);
}

#[test]
fn parameters_show_ranges_as_numbers() {
    let configuration = Configuration::default();
    assert_eq!(
        configuration.parameters(),
        Parameters {
            empty_weight: "0.0".to_string(),
            water_weight: "0.0".to_string(),
            air_pressure: "0.0".to_string(),
            accel_range: 8,
            gyro_range: 500,
            filter_bandwidth: 21,
        }
    );
}

#[test]
fn clones_are_equal() {
    let mut configuration = Configuration::default();
    configuration.air_pressure = "4.2".to_string();
    assert_eq!(configuration.clone(), configuration);
    let parameters = configuration.parameters();
    assert_eq!(parameters.clone(), parameters);
    assert_eq!(parameters.air_pressure, "4.2");
}
