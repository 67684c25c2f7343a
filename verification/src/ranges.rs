//! The selectable sensor ranges. Each is a closed set of values with a default.

use vstd::prelude::*;

verus! {

/// Full-scale range of the accelerometer, in g.
#[derive(Clone, Copy, Debug, PartialEq, Eq, Structural)]
pub enum AccelRange {
    Range2G,
    Range4G,
    Range8G,
    Range16G,
}

/// Full-scale range of the gyroscope, in degrees per second.
#[derive(Clone, Copy, Debug, PartialEq, Eq, Structural)]
pub enum GyroRange {
    Range250DPS,
    Range500DPS,
    Range1000DPS,
    Range2000DPS,
}

/// Bandwidth of the sensor's low-pass filter, in hertz.
#[derive(Clone, Copy, Debug, PartialEq, Eq, Structural)]
pub enum FilterBandwidthHz {
    BandWidth260,
    BandWidth184,
    BandWidth94,
    BandWidth44,
    BandWidth21,
    BandWidth10,
    BandWidth5,
}

impl AccelRange {
    /// The range in g.
    pub open spec fn spec_value(self) -> u32 {
        match self {
            AccelRange::Range2G => 2,
            AccelRange::Range4G => 4,
            AccelRange::Range8G => 8,
            AccelRange::Range16G => 16,
        }
    }

    /// Whether `raw` names one of the ranges.
    pub open spec fn is_valid(raw: u32) -> bool {
        raw == 2 || raw == 4 || raw == 8 || raw == 16
    }

    #[verifier::when_used_as_spec(spec_value)]
    pub fn value(self) -> (v: u32)
        ensures
            v == self.spec_value(),
    {
        match self {
            AccelRange::Range2G => 2,
            AccelRange::Range4G => 4,
            AccelRange::Range8G => 8,
            AccelRange::Range16G => 16,
        }
    }

    /// The range whose value is `raw`; `None` for a number outside the set.
    pub fn from_u32(raw: u32) -> (range: Option<AccelRange>)
        ensures
            range is Some <==> Self::is_valid(raw),
            range matches Some(r) ==> r.spec_value() == raw,
    {
        if raw == 2 {
            Some(AccelRange::Range2G)
        } else if raw == 4 {
            Some(AccelRange::Range4G)
        } else if raw == 8 {
            Some(AccelRange::Range8G)
        } else if raw == 16 {
            Some(AccelRange::Range16G)
        } else {
            None
        }
    }

    /// The range whose value is `raw`, or the default range where `raw` is
    /// outside the set.
    pub fn from_u32_or_default(raw: u32) -> (range: AccelRange)
        ensures
            Self::is_valid(raw) ==> range.spec_value() == raw,
            !Self::is_valid(raw) ==> range == AccelRange::Range8G,
    {
        match Self::from_u32(raw) {
            Some(range) => range,
            None => AccelRange::default(),
        }
    }
}

impl Default for AccelRange {
    fn default() -> (range: AccelRange)
        ensures
            range == AccelRange::Range8G,
    {
        AccelRange::Range8G
    }
}

impl GyroRange {
    /// The range in degrees per second.
    pub open spec fn spec_value(self) -> u32 {
        match self {
            GyroRange::Range250DPS => 250,
            GyroRange::Range500DPS => 500,
            GyroRange::Range1000DPS => 1000,
            GyroRange::Range2000DPS => 2000,
        }
    }

    /// Whether `raw` names one of the ranges.
    pub open spec fn is_valid(raw: u32) -> bool {
        raw == 250 || raw == 500 || raw == 1000 || raw == 2000
    }

    #[verifier::when_used_as_spec(spec_value)]
    pub fn value(self) -> (v: u32)
        ensures
            v == self.spec_value(),
    {
        match self {
            GyroRange::Range250DPS => 250,
            GyroRange::Range500DPS => 500,
            GyroRange::Range1000DPS => 1000,
            GyroRange::Range2000DPS => 2000,
        }
    }

    /// The range whose value is `raw`; `None` for a number outside the set.
    pub fn from_u32(raw: u32) -> (range: Option<GyroRange>)
        ensures
            range is Some <==> Self::is_valid(raw),
            range matches Some(r) ==> r.spec_value() == raw,
    {
        if raw == 250 {
            Some(GyroRange::Range250DPS)
        } else if raw == 500 {
            Some(GyroRange::Range500DPS)
        } else if raw == 1000 {
            Some(GyroRange::Range1000DPS)
        } else if raw == 2000 {
            Some(GyroRange::Range2000DPS)
        } else {
            None
        }
    }

    /// The range whose value is `raw`, or the default range where `raw` is
    /// outside the set.
    pub fn from_u32_or_default(raw: u32) -> (range: GyroRange)
        ensures
            Self::is_valid(raw) ==> range.spec_value() == raw,
            !Self::is_valid(raw) ==> range == GyroRange::Range500DPS,
    {
        match Self::from_u32(raw) {
            Some(range) => range,
            None => GyroRange::default(),
        }
    }
}

impl Default for GyroRange {
    fn default() -> (range: GyroRange)
        ensures
            range == GyroRange::Range500DPS,
    {
        GyroRange::Range500DPS
    }
}

impl FilterBandwidthHz {
    /// The bandwidth in hertz.
    pub open spec fn spec_value(self) -> u32 {
        match self {
            FilterBandwidthHz::BandWidth260 => 260,
            FilterBandwidthHz::BandWidth184 => 184,
            FilterBandwidthHz::BandWidth94 => 94,
            FilterBandwidthHz::BandWidth44 => 44,
            FilterBandwidthHz::BandWidth21 => 21,
            FilterBandwidthHz::BandWidth10 => 10,
            FilterBandwidthHz::BandWidth5 => 5,
        }
    }

    /// Whether `raw` names one of the bandwidths.
    pub open spec fn is_valid(raw: u32) -> bool {
        raw == 260 || raw == 184 || raw == 94 || raw == 44 || raw == 21 || raw == 10 || raw == 5
    }

    #[verifier::when_used_as_spec(spec_value)]
    pub fn value(self) -> (v: u32)
        ensures
            v == self.spec_value(),
    {
        match self {
            FilterBandwidthHz::BandWidth260 => 260,
            FilterBandwidthHz::BandWidth184 => 184,
            FilterBandwidthHz::BandWidth94 => 94,
            FilterBandwidthHz::BandWidth44 => 44,
            FilterBandwidthHz::BandWidth21 => 21,
            FilterBandwidthHz::BandWidth10 => 10,
            FilterBandwidthHz::BandWidth5 => 5,
        }
    }

    /// The bandwidth whose value is `raw`; `None` for a number outside the set.
    pub fn from_u32(raw: u32) -> (bandwidth: Option<FilterBandwidthHz>)
        ensures
            bandwidth is Some <==> Self::is_valid(raw),
            bandwidth matches Some(b) ==> b.spec_value() == raw,
    {
        if raw == 260 {
            Some(FilterBandwidthHz::BandWidth260)
        } else if raw == 184 {
            Some(FilterBandwidthHz::BandWidth184)
        } else if raw == 94 {
            Some(FilterBandwidthHz::BandWidth94)
        } else if raw == 44 {
            Some(FilterBandwidthHz::BandWidth44)
        } else if raw == 21 {
            Some(FilterBandwidthHz::BandWidth21)
        } else if raw == 10 {
            Some(FilterBandwidthHz::BandWidth10)
        } else if raw == 5 {
            Some(FilterBandwidthHz::BandWidth5)
        } else {
            None
        }
    }

    /// The bandwidth whose value is `raw`, or the default bandwidth where `raw`
    /// is outside the set.
    pub fn from_u32_or_default(raw: u32) -> (bandwidth: FilterBandwidthHz)
        ensures
            Self::is_valid(raw) ==> bandwidth.spec_value() == raw,
            !Self::is_valid(raw) ==> bandwidth == FilterBandwidthHz::BandWidth21,
    {
        match Self::from_u32(raw) {
            Some(bandwidth) => bandwidth,
            None => FilterBandwidthHz::default(),
        }
    }
}

impl Default for FilterBandwidthHz {
    fn default() -> (bandwidth: FilterBandwidthHz)
        ensures
            bandwidth == FilterBandwidthHz::BandWidth21,
    {
        FilterBandwidthHz::BandWidth21
    }
}

} // verus!
