//! The flight model: one sample of simulated sensor readings and the rule that
//! carries it from one tick to the next.
//!
//! Quantities are held in fixed point, scaled so that one step of a tenth of a
//! second is exact integer addition: altitude in units of 1e-10 m, vertical
//! speed in 1e-9 m/s and acceleration in 1e-8 m/s². Sums that leave the range
//! of `i64` stay at its nearest end.

use vstd::prelude::*;

verus! {

/// Length of one tick in milliseconds.
pub const TICK_MS: u64 = 100;

/// Units of altitude in one metre.
pub const ALTITUDE_PER_METRE: i64 = 10_000_000_000;

/// Units of speed in one metre per second.
pub const SPEED_PER_METRE_PER_SECOND: i64 = 1_000_000_000;

/// Units of acceleration in one metre per second squared.
pub const ACCELERATION_PER_METRE_PER_SECOND_SQUARED: i64 = 100_000_000;

/// Standard gravity, 9.80665 m/s², in units of 1e-8 m/s².
pub const STANDARD_GRAVITY: i64 = 980_665_000;

/// Width of the jitter band, 0.5 m/s², in units of 1e-8 m/s².
pub const JITTER_SPAN: i64 = 50_000_000;

/// Elapsed time at which the boost begins, in milliseconds.
pub const BOOST_START_MS: u64 = 1000;

/// Elapsed time at which the boost ends, in milliseconds.
pub const BOOST_END_MS: u64 = 2000;

/// Ambient temperature reported by the pressure sensor, in thousandths of a
/// degree Celsius.
pub const BMP_TEMPERATURE: i64 = 25_000;

/// Ambient temperature reported by the motion sensor, in thousandths of a
/// degree Celsius.
pub const MPU_TEMPERATURE: i64 = 24_900;

/// One sample of sensor readings.
///
/// Barometric pressure is a function of `altitude` alone and has no field of
/// its own; it is derived where a sample is rendered for a listener.
#[derive(Clone, Copy, Debug, PartialEq, Eq, Structural)]
pub struct Telemetry {
    /// Milliseconds since the run started.
    pub time: u64,
    /// Acceleration along each axis, in units of 1e-8 m/s².
    pub acceleration_x: i64,
    pub acceleration_y: i64,
    pub acceleration_z: i64,
    /// Vertical speed in units of 1e-9 m/s. Internal: never shown to listeners.
    pub speed_z: i64,
    /// Rotation rate about each axis, in thousandths of a degree per second.
    pub gyro_x: i64,
    pub gyro_y: i64,
    pub gyro_z: i64,
    /// Height above the ground in units of 1e-10 m.
    pub altitude: i64,
    /// Temperatures in thousandths of a degree Celsius.
    pub bmp_temperature: i64,
    pub mpu_temperature: i64,
}

/// The value of `i64` nearest to `x`.
pub open spec fn saturate(x: int) -> i64 {
    if x > i64::MAX {
        i64::MAX
    } else if x < i64::MIN {
        i64::MIN
    } else {
        x as i64
    }
}

/// One step of a tenth of a second: altitude gains the old speed, speed gains
/// the acceleration, and a sample that would be at or below the ground while
/// not rising comes to rest on it. Returns the new altitude and speed.
pub open spec fn integrate(altitude: i64, speed: i64, acceleration: i64) -> (i64, i64) {
    let risen = saturate(altitude + speed);
    let sped = saturate(speed + acceleration);
    if risen <= 0 && sped <= 0 {
        (0i64, 0i64)
    } else {
        (risen, sped)
    }
}

/// Altitude and speed after `steps` steps under a constant acceleration.
pub open spec fn integrate_steps(altitude: i64, speed: i64, acceleration: i64, steps: nat) -> (
    i64,
    i64,
)
    decreases steps,
{
    if steps == 0 {
        (altitude, speed)
    } else {
        let before = integrate_steps(altitude, speed, acceleration, (steps - 1) as nat);
        integrate(before.0, before.1, acceleration)
    }
}

/// The commanded vertical acceleration during the boost: a straight line from
/// four times gravity at its start down to minus gravity at its end.
pub open spec fn boost_acceleration(time_ms: int) -> int {
    (4000 - 5 * (time_ms - BOOST_START_MS)) * (STANDARD_GRAVITY / 1000)
}

/// The jitter that a random draw stands for: the draw, read as a fraction of
/// the full range of `u32`, placed in the band of `JITTER_SPAN` around zero.
pub open spec fn jitter_of(draw: u32) -> int {
    draw * JITTER_SPAN / 0x1_0000_0000 - JITTER_SPAN / 2
}

fn saturating_sum(a: i64, b: i64) -> (sum: i64)
    ensures
        sum == saturate(a + b),
{
    let wide: i128 = a as i128 + b as i128;
    if wide > i64::MAX as i128 {
        i64::MAX
    } else if wide < i64::MIN as i128 {
        i64::MIN
    } else {
        wide as i64
    }
}

/// Turns a random draw into the jitter of one tick.
pub fn jitter_from_draw(draw: u32) -> (jitter: i64)
    ensures
        jitter == jitter_of(draw),
        -JITTER_SPAN / 2 <= jitter < JITTER_SPAN / 2,
{
    let span: u64 = JITTER_SPAN as u64;
    let scaled: u64 = (draw as u64) * span / 0x1_0000_0000;
    scaled as i64 - JITTER_SPAN / 2
}

impl Telemetry {
    /// The sample at the start of a run: at rest on the ground under gravity.
    pub open spec fn spec_start() -> Telemetry {
        Telemetry {
            time: 0,
            acceleration_x: 0,
            acceleration_y: 0,
            acceleration_z: (-STANDARD_GRAVITY) as i64,
            speed_z: 0,
            gyro_x: 0,
            gyro_y: 0,
            gyro_z: 0,
            altitude: 0,
            bmp_temperature: BMP_TEMPERATURE,
            mpu_temperature: MPU_TEMPERATURE,
        }
    }

    #[verifier::when_used_as_spec(spec_start)]
    pub fn start() -> (sample: Telemetry)
        ensures
            sample == Self::spec_start(),
    {
        Telemetry {
            time: 0,
            acceleration_x: 0,
            acceleration_y: 0,
            acceleration_z: -STANDARD_GRAVITY,
            speed_z: 0,
            gyro_x: 0,
            gyro_y: 0,
            gyro_z: 0,
            altitude: 0,
            bmp_temperature: BMP_TEMPERATURE,
            mpu_temperature: MPU_TEMPERATURE,
        }
    }

    /// Whether the tick at `time_ms` integrates the motion: always during the
    /// first two seconds, and afterwards for as long as the sample is off the
    /// ground or moving.
    pub open spec fn in_motion(self, time_ms: int) -> bool {
        self.speed_z != 0 || self.altitude != 0 || time_ms < BOOST_END_MS
    }

    /// Whether the next step takes the sample below the ground while its new
    /// speed points upwards, so that it is not brought to rest.
    pub open spec fn breaks_through(self) -> bool {
        self.altitude + self.speed_z < 0 && self.speed_z + self.acceleration_z > 0
    }

    /// The sample one tick later, `iterations` ticks into the run.
    ///
    /// The motion is integrated with the acceleration of the previous tick.
    /// Then the acceleration is set for the next one: during the boost to the
    /// commanded value, otherwise left as it was, and in every case moved by
    /// `jitter`.
    pub open spec fn advanced(self, iterations: u64, jitter: i64) -> Telemetry {
        let time = iterations * TICK_MS;
        let moved = if self.in_motion(time) {
            integrate(self.altitude, self.speed_z, self.acceleration_z)
        } else {
            (self.altitude, self.speed_z)
        };
        let commanded = if BOOST_START_MS <= time <= BOOST_END_MS {
            boost_acceleration(time)
        } else {
            self.acceleration_z as int
        };
        Telemetry {
            time: time as u64,
            altitude: moved.0,
            speed_z: moved.1,
            acceleration_z: saturate(commanded + jitter),
            ..self
        }
    }

    /// Advances the sample by one tick. A sample that is not below the ground
    /// stays so unless it breaks through, and one at rest on the ground under
    /// an acceleration that does not point upwards stays at rest.
    pub fn advance(&mut self, iterations: u64, jitter: i64)
        requires
            iterations * TICK_MS <= u64::MAX,
        ensures
            *final(self) == old(self).advanced(iterations, jitter),
            old(self).altitude >= 0 && !old(self).breaks_through() ==> final(self).altitude >= 0,
            old(self).altitude == 0 && old(self).speed_z == 0 && old(self).acceleration_z <= 0
                ==> final(self).altitude == 0 && final(self).speed_z == 0,
    {
        let time: u64 = iterations * TICK_MS;
        if self.speed_z != 0 || self.altitude != 0 || time < BOOST_END_MS {
            let risen: i64 = saturating_sum(self.altitude, self.speed_z);
            let sped: i64 = saturating_sum(self.speed_z, self.acceleration_z);
            if risen <= 0 && sped <= 0 {
                self.altitude = 0;
                self.speed_z = 0;
            } else {
                self.altitude = risen;
                self.speed_z = sped;
            }
        }
        self.time = time;
        if BOOST_START_MS <= time && time <= BOOST_END_MS {
            let past: i64 = (time - BOOST_START_MS) as i64;
            let per_thousand: i64 = STANDARD_GRAVITY / 1000;
            assert(per_thousand == 980_665);
            self.acceleration_z = (4000 - 5 * past) * per_thousand;
        }
        self.acceleration_z = saturating_sum(self.acceleration_z, jitter);
    }
}

/// The scales fit the tick: a unit of speed kept up for one tick covers a
/// unit of altitude, a unit of acceleration kept up for one tick adds a unit
/// of speed, and `STANDARD_GRAVITY` is 9.80665 m/s².
pub proof fn lemma_units_fit_the_tick()
    ensures
        ALTITUDE_PER_METRE * TICK_MS == SPEED_PER_METRE_PER_SECOND * 1000,
        SPEED_PER_METRE_PER_SECOND * TICK_MS == ACCELERATION_PER_METRE_PER_SECOND_SQUARED * 1000,
        STANDARD_GRAVITY * 100_000 == 980_665 * ACCELERATION_PER_METRE_PER_SECOND_SQUARED,
        JITTER_SPAN * 2 == ACCELERATION_PER_METRE_PER_SECOND_SQUARED,
{
}

/// The boost starts at four times gravity, ends at minus gravity, and falls
/// by the same amount with every millisecond in between.
pub proof fn lemma_boost_is_a_line(time_ms: int)
    ensures
        boost_acceleration(BOOST_START_MS as int) == 4 * STANDARD_GRAVITY,
        boost_acceleration(BOOST_END_MS as int) == -STANDARD_GRAVITY,
        boost_acceleration(time_ms) - boost_acceleration(time_ms + 1) == 5 * (STANDARD_GRAVITY
            / 1000),
{
    assert(STANDARD_GRAVITY / 1000 == 980_665);
}

/// A sample that is not below the ground is not below it one tick later,
/// unless this tick takes it through the ground while its new speed points
/// upwards.
pub proof fn lemma_altitude_never_negative(sample: Telemetry, iterations: u64, jitter: i64)
    requires
        sample.altitude >= 0,
        !sample.breaks_through(),
    ensures
        sample.advanced(iterations, jitter).altitude >= 0,
{
}

/// A sample at rest on the ground whose acceleration does not point upwards
/// is still at rest on the ground after any number of steps.
pub proof fn lemma_ground_rest(acceleration: i64, steps: nat)
    requires
        acceleration <= 0,
    ensures
        integrate_steps(0, 0, acceleration, steps) == (0i64, 0i64),
    decreases steps,
{
    if steps > 0 {
        lemma_ground_rest(acceleration, (steps - 1) as nat);
    }
}

/// Once a run is two seconds old, a sample at rest on the ground is left
/// there by every tick, whatever its acceleration: the motion has halted for
/// the rest of the run.
pub proof fn lemma_motion_halts_on_the_ground(sample: Telemetry, iterations: u64, jitter: i64)
    requires
        sample.altitude == 0,
        sample.speed_z == 0,
        iterations * TICK_MS >= BOOST_END_MS,
    ensures
        sample.advanced(iterations, jitter).altitude == 0,
        sample.advanced(iterations, jitter).speed_z == 0,
{
}

/// Under gravity alone a sample at rest on the ground stays there, tick after
/// tick, whatever the elapsed time.
pub proof fn lemma_rest_under_gravity(sample: Telemetry, iterations: u64, jitter: i64)
    requires
        sample.altitude == 0,
        sample.speed_z == 0,
        sample.acceleration_z <= 0,
    ensures
        sample.advanced(iterations, jitter).altitude == 0,
        sample.advanced(iterations, jitter).speed_z == 0,
{
}

} // verus!
