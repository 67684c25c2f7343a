//! The configuration of the simulated sensors and its partial update.

use crate::ranges::{AccelRange, FilterBandwidthHz, GyroRange};
use vstd::prelude::*;

verus! {

/// The full configuration. The three physical quantities are free-form text:
/// they are kept and echoed as given and never read as numbers.
#[derive(Debug, PartialEq, Eq)]
pub struct Configuration {
    pub empty_weight: String,
    pub water_weight: String,
    pub air_pressure: String,
    pub accel_range: AccelRange,
    pub gyro_range: GyroRange,
    pub filter_bandwidth: FilterBandwidthHz,
}

/// An update of the configuration: a field that is `None` leaves the
/// configuration's field as it is.
#[derive(Debug, PartialEq, Eq)]
pub struct PartialConfiguration {
    pub empty_weight: Option<String>,
    pub water_weight: Option<String>,
    pub air_pressure: Option<String>,
    pub accel_range: Option<AccelRange>,
    pub gyro_range: Option<GyroRange>,
    pub filter_bandwidth: Option<FilterBandwidthHz>,
}

/// The configuration as listeners see it: the text fields as they are and
/// each range as its number.
#[derive(Debug, PartialEq, Eq)]
pub struct Parameters {
    pub empty_weight: String,
    pub water_weight: String,
    pub air_pressure: String,
    pub accel_range: u32,
    pub gyro_range: u32,
    pub filter_bandwidth: u32,
}

impl Clone for Configuration {
    fn clone(&self) -> (copy: Configuration)
        ensures
            copy == *self,
    {
        Configuration {
            empty_weight: self.empty_weight.clone(),
            water_weight: self.water_weight.clone(),
            air_pressure: self.air_pressure.clone(),
            accel_range: self.accel_range,
            gyro_range: self.gyro_range,
            filter_bandwidth: self.filter_bandwidth,
        }
    }
}

impl Clone for Parameters {
    fn clone(&self) -> (copy: Parameters)
        ensures
            copy == *self,
    {
        Parameters {
            empty_weight: self.empty_weight.clone(),
            water_weight: self.water_weight.clone(),
            air_pressure: self.air_pressure.clone(),
            accel_range: self.accel_range,
            gyro_range: self.gyro_range,
            filter_bandwidth: self.filter_bandwidth,
        }
    }
}

impl Default for Configuration {
    /// The configuration of a fresh simulation: every text field reads "0.0"
    /// and every range is at its default.
    fn default() -> (configuration: Configuration)
        ensures
            configuration.is_default(),
    {
        Configuration {
            empty_weight: "0.0".to_owned(),
            water_weight: "0.0".to_owned(),
            air_pressure: "0.0".to_owned(),
            accel_range: AccelRange::default(),
            gyro_range: GyroRange::default(),
            filter_bandwidth: FilterBandwidthHz::default(),
        }
    }
}

impl PartialConfiguration {
    /// The update that changes nothing.
    pub fn empty() -> (partial: PartialConfiguration)
        ensures
            partial == (PartialConfiguration {
                empty_weight: None,
                water_weight: None,
                air_pressure: None,
                accel_range: None,
                gyro_range: None,
                filter_bandwidth: None,
            }),
    {
        PartialConfiguration {
            empty_weight: None,
            water_weight: None,
            air_pressure: None,
            accel_range: None,
            gyro_range: None,
            filter_bandwidth: None,
        }
    }
}

/// The value of a field after an update: the supplied one, or else the one
/// that was there.
pub open spec fn overwritten<T>(supplied: Option<T>, prior: T) -> T {
    match supplied {
        Some(value) => value,
        None => prior,
    }
}

impl Configuration {
    /// Whether this is the configuration of a fresh simulation.
    pub open spec fn is_default(self) -> bool {
        &&& self.empty_weight@ == "0.0"@
        &&& self.water_weight@ == "0.0"@
        &&& self.air_pressure@ == "0.0"@
        &&& self.accel_range == AccelRange::Range8G
        &&& self.gyro_range == GyroRange::Range500DPS
        &&& self.filter_bandwidth == FilterBandwidthHz::BandWidth21
    }

    /// The configuration after `partial` has been applied to it.
    pub open spec fn merged(self, partial: PartialConfiguration) -> Configuration {
        Configuration {
            empty_weight: overwritten(partial.empty_weight, self.empty_weight),
            water_weight: overwritten(partial.water_weight, self.water_weight),
            air_pressure: overwritten(partial.air_pressure, self.air_pressure),
            accel_range: overwritten(partial.accel_range, self.accel_range),
            gyro_range: overwritten(partial.gyro_range, self.gyro_range),
            filter_bandwidth: overwritten(partial.filter_bandwidth, self.filter_bandwidth),
        }
    }

    /// The configuration as listeners see it.
    pub open spec fn spec_parameters(self) -> Parameters {
        Parameters {
            empty_weight: self.empty_weight,
            water_weight: self.water_weight,
            air_pressure: self.air_pressure,
            accel_range: self.accel_range.spec_value(),
            gyro_range: self.gyro_range.spec_value(),
            filter_bandwidth: self.filter_bandwidth.spec_value(),
        }
    }

    /// Overwrites the fields that `partial` supplies and keeps the others.
    pub fn merge(&mut self, partial: PartialConfiguration)
        ensures
            *final(self) == old(self).merged(partial),
    {
        if let Some(empty_weight) = partial.empty_weight {
            self.empty_weight = empty_weight;
        }
        if let Some(water_weight) = partial.water_weight {
            self.water_weight = water_weight;
        }
        if let Some(air_pressure) = partial.air_pressure {
            self.air_pressure = air_pressure;
        }
        if let Some(accel_range) = partial.accel_range {
            self.accel_range = accel_range;
        }
        if let Some(gyro_range) = partial.gyro_range {
            self.gyro_range = gyro_range;
        }
        if let Some(filter_bandwidth) = partial.filter_bandwidth {
            self.filter_bandwidth = filter_bandwidth;
        }
    }

    /// Renders the configuration for listeners.
    pub fn parameters(&self) -> (parameters: Parameters)
        ensures
            parameters == self.spec_parameters(),
    {
        Parameters {
            empty_weight: self.empty_weight.clone(),
            water_weight: self.water_weight.clone(),
            air_pressure: self.air_pressure.clone(),
            accel_range: self.accel_range.value(),
            gyro_range: self.gyro_range.value(),
            filter_bandwidth: self.filter_bandwidth.value(),
        }
    }
}

/// A field that an update does not supply keeps its value, and one that it
/// supplies takes the supplied value, each independently of the others.
pub proof fn lemma_merge_is_fieldwise(prior: Configuration, partial: PartialConfiguration)
    ensures
        partial.empty_weight is None ==> prior.merged(partial).empty_weight == prior.empty_weight,
        partial.water_weight is None ==> prior.merged(partial).water_weight == prior.water_weight,
        partial.air_pressure is None ==> prior.merged(partial).air_pressure == prior.air_pressure,
        partial.accel_range is None ==> prior.merged(partial).accel_range == prior.accel_range,
        partial.gyro_range is None ==> prior.merged(partial).gyro_range == prior.gyro_range,
        partial.filter_bandwidth is None ==> prior.merged(partial).filter_bandwidth
            == prior.filter_bandwidth,
        partial.empty_weight matches Some(v) ==> prior.merged(partial).empty_weight == v,
        partial.water_weight matches Some(v) ==> prior.merged(partial).water_weight == v,
        partial.air_pressure matches Some(v) ==> prior.merged(partial).air_pressure == v,
        partial.accel_range matches Some(v) ==> prior.merged(partial).accel_range == v,
        partial.gyro_range matches Some(v) ==> prior.merged(partial).gyro_range == v,
        partial.filter_bandwidth matches Some(v) ==> prior.merged(partial).filter_bandwidth == v,
{
}

} // verus!
