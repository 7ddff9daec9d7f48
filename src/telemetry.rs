//! Decoding of a decrypted packet into a telemetry record.
//!
//! Every field is read from a fixed offset of the decrypted buffer. Values
//! that the wire carries as IEEE-754 singles are kept as their bit patterns;
//! the quantities derived from them by floating-point arithmetic (tyre
//! speeds, car speed, slip ratios, throttle and brake percentages, boost,
//! ride height in millimetres) are computed where the record is presented.
use vstd::prelude::*;
use crate::bytes::{le_i16, le_i32, le_u16, le_u32, read_i16, read_i32, read_u16, read_u32};

verus! {

// Byte offsets of the fields in a decrypted packet.
pub const PACKAGE_ID: usize = 0x70;
pub const CURRENT_LAP: usize = 0x74;
pub const TOTAL_LAPS: usize = 0x76;
pub const BEST_LAP: usize = 0x78;
pub const LAST_LAP: usize = 0x7C;
pub const CURRENT_POSITION: usize = 0x84;
pub const TOTAL_POSITIONS: usize = 0x86;
pub const RPM_REV_WARNING: usize = 0x88;
pub const RPM_REV_LIMITER: usize = 0x8A;
pub const ESTIMATED_TOP_SPEED: usize = 0x8C;
pub const CAR_ID: usize = 0x124;
pub const POSITION_X: usize = 0x4;
pub const POSITION_Y: usize = 0x8;
pub const POSITION_Z: usize = 0xC;
pub const VELOCITY_X: usize = 0x10;
pub const VELOCITY_Y: usize = 0x14;
pub const VELOCITY_Z: usize = 0x18;
pub const ROTATION_PITCH: usize = 0x1C;
pub const ROTATION_YAW: usize = 0x20;
pub const ROTATION_ROLL: usize = 0x24;
pub const ANGULAR_VELOCITY_X: usize = 0x2C;
pub const ANGULAR_VELOCITY_Y: usize = 0x30;
pub const ANGULAR_VELOCITY_Z: usize = 0x34;
pub const RIDE_HEIGHT: usize = 0x38;
pub const RPM: usize = 0x3C;
pub const CURRENT_FUEL: usize = 0x44;
pub const FUEL_CAPACITY: usize = 0x48;
pub const SPEED: usize = 0x4C;
pub const BOOST: usize = 0x50;
pub const OIL_PRESSURE: usize = 0x54;
pub const WATER_TEMP: usize = 0x58;
pub const OIL_TEMP: usize = 0x5C;
pub const TYRE_TEMP_FL: usize = 0x60;
pub const TYRE_TEMP_FR: usize = 0x64;
pub const TYRE_TEMP_RL: usize = 0x68;
pub const TYRE_TEMP_RR: usize = 0x6C;
pub const WHEEL_SPEED_FL: usize = 0xA4;
pub const WHEEL_SPEED_FR: usize = 0xA8;
pub const WHEEL_SPEED_RL: usize = 0xAC;
pub const WHEEL_SPEED_RR: usize = 0xB0;
pub const TYRE_DIAMETER_FL: usize = 0xB4;
pub const TYRE_DIAMETER_FR: usize = 0xB8;
pub const TYRE_DIAMETER_RL: usize = 0xBC;
pub const TYRE_DIAMETER_RR: usize = 0xC0;
pub const SUSPENSION_FL: usize = 0xC4;
pub const SUSPENSION_FR: usize = 0xC8;
pub const SUSPENSION_RL: usize = 0xCC;
pub const SUSPENSION_RR: usize = 0xD0;
pub const CLUTCH: usize = 0xF4;
pub const CLUTCH_ENGAGED: usize = 0xF8;
pub const RPM_AFTER_CLUTCH: usize = 0xFC;
pub const GEAR_1: usize = 0x104;
pub const GEAR_2: usize = 0x108;
pub const GEAR_3: usize = 0x10C;
pub const GEAR_4: usize = 0x110;
pub const GEAR_5: usize = 0x114;
pub const GEAR_6: usize = 0x118;
pub const GEAR_7: usize = 0x11C;
pub const GEAR_8: usize = 0x120;
pub const STATUS_FLAGS: usize = 0x8E;
pub const GEAR_WORD: usize = 0x90;
pub const TIME_ON_TRACK: usize = 0x80;

/// Length a decrypted packet must have for every field to be read.
pub const RECORD_LEN: usize = 0x128;

/// One decoded snapshot of vehicle and session state.
#[derive(Debug, Clone, Copy, PartialEq, Eq, Structural)]
pub struct GTData {
    /// Sequence number of the snapshot.
    pub package_id: i32,
    /// Current lap.
    pub current_lap: i16,
    /// Laps in the race.
    pub total_laps: i16,
    /// Best lap time in milliseconds.
    pub best_lap: i32,
    /// Last lap time in milliseconds.
    pub last_lap: i32,
    /// Current race position.
    pub current_position: i16,
    /// Number of race positions.
    pub total_positions: i16,
    /// RPM at which the rev warning starts.
    pub rpm_rev_warning: u16,
    /// RPM of the rev limiter.
    pub rpm_rev_limiter: u16,
    /// Estimated top speed.
    pub estimated_top_speed: i16,
    /// Car identifier.
    pub car_id: i32,
    /// World position, x. Bits of an IEEE-754 single.
    pub position_x: u32,
    /// World position, y. Bits of an IEEE-754 single.
    pub position_y: u32,
    /// World position, z. Bits of an IEEE-754 single.
    pub position_z: u32,
    /// Velocity, x. Bits of an IEEE-754 single.
    pub velocity_x: u32,
    /// Velocity, y. Bits of an IEEE-754 single.
    pub velocity_y: u32,
    /// Velocity, z. Bits of an IEEE-754 single.
    pub velocity_z: u32,
    /// Orientation, pitch. Bits of an IEEE-754 single.
    pub rotation_pitch: u32,
    /// Orientation, yaw. Bits of an IEEE-754 single.
    pub rotation_yaw: u32,
    /// Orientation, roll. Bits of an IEEE-754 single.
    pub rotation_roll: u32,
    /// Angular velocity, x. Bits of an IEEE-754 single.
    pub angular_velocity_x: u32,
    /// Angular velocity, y. Bits of an IEEE-754 single.
    pub angular_velocity_y: u32,
    /// Angular velocity, z. Bits of an IEEE-754 single.
    pub angular_velocity_z: u32,
    /// Ride height in metres (millimetres are this times 1000). Bits of an IEEE-754 single.
    pub ride_height_raw: u32,
    /// Engine RPM. Bits of an IEEE-754 single.
    pub rpm: u32,
    /// Fuel left. Bits of an IEEE-754 single.
    pub current_fuel: u32,
    /// Fuel capacity. Bits of an IEEE-754 single.
    pub fuel_capacity: u32,
    /// Longitudinal speed in m/s (car speed is this times 3.6). Bits of an IEEE-754 single.
    pub speed_raw: u32,
    /// Boost as sent (boost is this minus 1.0). Bits of an IEEE-754 single.
    pub boost_raw: u32,
    /// Oil pressure. Bits of an IEEE-754 single.
    pub oil_pressure: u32,
    /// Water temperature. Bits of an IEEE-754 single.
    pub water_temp: u32,
    /// Oil temperature. Bits of an IEEE-754 single.
    pub oil_temp: u32,
    /// Tyre temperature, front left. Bits of an IEEE-754 single.
    pub tyre_temp_fl: u32,
    /// Tyre temperature, front right. Bits of an IEEE-754 single.
    pub tyre_temp_fr: u32,
    /// Tyre temperature, rear left. Bits of an IEEE-754 single.
    pub tyre_temp_rl: u32,
    /// Tyre temperature, rear right. Bits of an IEEE-754 single.
    pub tyre_temp_rr: u32,
    /// Wheel angular speed, front left. Bits of an IEEE-754 single.
    pub wheel_speed_fl: u32,
    /// Wheel angular speed, front right. Bits of an IEEE-754 single.
    pub wheel_speed_fr: u32,
    /// Wheel angular speed, rear left. Bits of an IEEE-754 single.
    pub wheel_speed_rl: u32,
    /// Wheel angular speed, rear right. Bits of an IEEE-754 single.
    pub wheel_speed_rr: u32,
    /// Tyre diameter, front left. Bits of an IEEE-754 single.
    pub tyre_diameter_fl: u32,
    /// Tyre diameter, front right. Bits of an IEEE-754 single.
    pub tyre_diameter_fr: u32,
    /// Tyre diameter, rear left. Bits of an IEEE-754 single.
    pub tyre_diameter_rl: u32,
    /// Tyre diameter, rear right. Bits of an IEEE-754 single.
    pub tyre_diameter_rr: u32,
    /// Suspension travel, front left. Bits of an IEEE-754 single.
    pub suspension_fl: u32,
    /// Suspension travel, front right. Bits of an IEEE-754 single.
    pub suspension_fr: u32,
    /// Suspension travel, rear left. Bits of an IEEE-754 single.
    pub suspension_rl: u32,
    /// Suspension travel, rear right. Bits of an IEEE-754 single.
    pub suspension_rr: u32,
    /// Clutch pedal. Bits of an IEEE-754 single.
    pub clutch: u32,
    /// Clutch engagement. Bits of an IEEE-754 single.
    pub clutch_engaged: u32,
    /// RPM after the clutch. Bits of an IEEE-754 single.
    pub rpm_after_clutch: u32,
    /// Gear ratio 1. Bits of an IEEE-754 single.
    pub gear_1: u32,
    /// Gear ratio 2. Bits of an IEEE-754 single.
    pub gear_2: u32,
    /// Gear ratio 3. Bits of an IEEE-754 single.
    pub gear_3: u32,
    /// Gear ratio 4. Bits of an IEEE-754 single.
    pub gear_4: u32,
    /// Gear ratio 5. Bits of an IEEE-754 single.
    pub gear_5: u32,
    /// Gear ratio 6. Bits of an IEEE-754 single.
    pub gear_6: u32,
    /// Gear ratio 7. Bits of an IEEE-754 single.
    pub gear_7: u32,
    /// Gear ratio 8. Bits of an IEEE-754 single.
    pub gear_8: u32,
    /// The packed gear word; throttle and brake percentages are both derived
    /// from it as `word / 2.55 * 100`.
    pub gear_word: u16,
    /// Current gear: low four bits of the gear word.
    pub current_gear: u16,
    /// Suggested gear: the gear word shifted right by four bits.
    pub suggested_gear: u16,
    /// Time on track in whole seconds.
    pub time_on_track_secs: u64,
    /// Bit 1 of the status word.
    pub is_paused: bool,
    /// Bit 0 of the status word.
    pub in_race: bool,
    /// Whether the derived car speed (3.6 times `speed_raw`) is positive. When
    /// it is not, all four slip ratios are reported as "0.00".
    pub car_moving: bool,
}

/// Why a decrypted packet could not be decoded.
#[derive(Debug, Clone, Copy, PartialEq, Eq, Structural)]
pub enum DecodeError {
    /// The buffer is shorter than `RECORD_LEN`.
    TooShort { len: usize },
}

/// Whether the single-precision value with bit pattern `bits` is greater than
/// zero: the sign bit is clear, and the value is neither zero nor a NaN. A
/// positive single stays positive when multiplied by 3.6.
pub open spec fn positive_f32(bits: u32) -> bool {
    0 < bits <= 0x7F80_0000
}

/// Time on track in seconds: the millisecond counter, widened to 64 bits as
/// a signed value, divided by 1000.
pub open spec fn seconds_of(millis: i32) -> u64 {
    ((millis as u64) / 1000) as u64
}

/// The record that decrypted packet `b` decodes to.
pub open spec fn decoded(b: Seq<u8>) -> GTData {
    GTData {
        package_id: le_i32(b, PACKAGE_ID as int),
        current_lap: le_i16(b, CURRENT_LAP as int),
        total_laps: le_i16(b, TOTAL_LAPS as int),
        best_lap: le_i32(b, BEST_LAP as int),
        last_lap: le_i32(b, LAST_LAP as int),
        current_position: le_i16(b, CURRENT_POSITION as int),
        total_positions: le_i16(b, TOTAL_POSITIONS as int),
        rpm_rev_warning: le_u16(b, RPM_REV_WARNING as int),
        rpm_rev_limiter: le_u16(b, RPM_REV_LIMITER as int),
        estimated_top_speed: le_i16(b, ESTIMATED_TOP_SPEED as int),
        car_id: le_i32(b, CAR_ID as int),
        position_x: le_u32(b, POSITION_X as int),
        position_y: le_u32(b, POSITION_Y as int),
        position_z: le_u32(b, POSITION_Z as int),
        velocity_x: le_u32(b, VELOCITY_X as int),
        velocity_y: le_u32(b, VELOCITY_Y as int),
        velocity_z: le_u32(b, VELOCITY_Z as int),
        rotation_pitch: le_u32(b, ROTATION_PITCH as int),
        rotation_yaw: le_u32(b, ROTATION_YAW as int),
        rotation_roll: le_u32(b, ROTATION_ROLL as int),
        angular_velocity_x: le_u32(b, ANGULAR_VELOCITY_X as int),
        angular_velocity_y: le_u32(b, ANGULAR_VELOCITY_Y as int),
        angular_velocity_z: le_u32(b, ANGULAR_VELOCITY_Z as int),
        ride_height_raw: le_u32(b, RIDE_HEIGHT as int),
        rpm: le_u32(b, RPM as int),
        current_fuel: le_u32(b, CURRENT_FUEL as int),
        fuel_capacity: le_u32(b, FUEL_CAPACITY as int),
        speed_raw: le_u32(b, SPEED as int),
        boost_raw: le_u32(b, BOOST as int),
        oil_pressure: le_u32(b, OIL_PRESSURE as int),
        water_temp: le_u32(b, WATER_TEMP as int),
        oil_temp: le_u32(b, OIL_TEMP as int),
        tyre_temp_fl: le_u32(b, TYRE_TEMP_FL as int),
        tyre_temp_fr: le_u32(b, TYRE_TEMP_FR as int),
        tyre_temp_rl: le_u32(b, TYRE_TEMP_RL as int),
        tyre_temp_rr: le_u32(b, TYRE_TEMP_RR as int),
        wheel_speed_fl: le_u32(b, WHEEL_SPEED_FL as int),
        wheel_speed_fr: le_u32(b, WHEEL_SPEED_FR as int),
        wheel_speed_rl: le_u32(b, WHEEL_SPEED_RL as int),
        wheel_speed_rr: le_u32(b, WHEEL_SPEED_RR as int),
        tyre_diameter_fl: le_u32(b, TYRE_DIAMETER_FL as int),
        tyre_diameter_fr: le_u32(b, TYRE_DIAMETER_FR as int),
        tyre_diameter_rl: le_u32(b, TYRE_DIAMETER_RL as int),
        tyre_diameter_rr: le_u32(b, TYRE_DIAMETER_RR as int),
        suspension_fl: le_u32(b, SUSPENSION_FL as int),
        suspension_fr: le_u32(b, SUSPENSION_FR as int),
        suspension_rl: le_u32(b, SUSPENSION_RL as int),
        suspension_rr: le_u32(b, SUSPENSION_RR as int),
        clutch: le_u32(b, CLUTCH as int),
        clutch_engaged: le_u32(b, CLUTCH_ENGAGED as int),
        rpm_after_clutch: le_u32(b, RPM_AFTER_CLUTCH as int),
        gear_1: le_u32(b, GEAR_1 as int),
        gear_2: le_u32(b, GEAR_2 as int),
        gear_3: le_u32(b, GEAR_3 as int),
        gear_4: le_u32(b, GEAR_4 as int),
        gear_5: le_u32(b, GEAR_5 as int),
        gear_6: le_u32(b, GEAR_6 as int),
        gear_7: le_u32(b, GEAR_7 as int),
        gear_8: le_u32(b, GEAR_8 as int),
        gear_word: le_u16(b, GEAR_WORD as int),
        current_gear: (le_u16(b, GEAR_WORD as int) % 16) as u16,
        suggested_gear: (le_u16(b, GEAR_WORD as int) / 16) as u16,
        time_on_track_secs: seconds_of(le_i32(b, TIME_ON_TRACK as int)),
        is_paused: (le_u16(b, STATUS_FLAGS as int) / 2) % 2 == 1,
        in_race: le_u16(b, STATUS_FLAGS as int) % 2 == 1,
        car_moving: positive_f32(le_u32(b, SPEED as int)),
    }
}

fn low_nibble(w: u16) -> (r: u16)
    ensures
        r == w % 16,
{
    assert(w & 0xF == w % 16) by (bit_vector);
    w & 0xF
}

fn high_part(w: u16) -> (r: u16)
    ensures
        r == w / 16,
{
    assert(w >> 4 == w / 16) by (bit_vector);
    w >> 4
}

fn bit_set(w: u16, mask: u16) -> (r: bool)
    requires
        mask == 1 || mask == 2,
    ensures
        r == ((w / mask) % 2 == 1),
{
    assert(w & 1 != 0 <==> w % 2 == 1) by (bit_vector);
    assert(w & 2 != 0 <==> (w / 2) % 2 == 1) by (bit_vector);
    w & mask != 0
}

impl GTData {
    /// Decodes a decrypted packet that holds every field.
    pub fn new(ddata: &[u8]) -> (r: GTData)
        requires
            ddata@.len() >= RECORD_LEN,
        ensures
            r == decoded(ddata@),
    {
        let gear_word = read_u16(ddata, GEAR_WORD);
        let flags = read_u16(ddata, STATUS_FLAGS);
        let millis = read_i32(ddata, TIME_ON_TRACK);
        let speed = read_u32(ddata, SPEED);
        GTData {
            package_id: read_i32(ddata, PACKAGE_ID),
            current_lap: read_i16(ddata, CURRENT_LAP),
            total_laps: read_i16(ddata, TOTAL_LAPS),
            best_lap: read_i32(ddata, BEST_LAP),
            last_lap: read_i32(ddata, LAST_LAP),
            current_position: read_i16(ddata, CURRENT_POSITION),
            total_positions: read_i16(ddata, TOTAL_POSITIONS),
            rpm_rev_warning: read_u16(ddata, RPM_REV_WARNING),
            rpm_rev_limiter: read_u16(ddata, RPM_REV_LIMITER),
            estimated_top_speed: read_i16(ddata, ESTIMATED_TOP_SPEED),
            car_id: read_i32(ddata, CAR_ID),
            position_x: read_u32(ddata, POSITION_X),
            position_y: read_u32(ddata, POSITION_Y),
            position_z: read_u32(ddata, POSITION_Z),
            velocity_x: read_u32(ddata, VELOCITY_X),
            velocity_y: read_u32(ddata, VELOCITY_Y),
            velocity_z: read_u32(ddata, VELOCITY_Z),
            rotation_pitch: read_u32(ddata, ROTATION_PITCH),
            rotation_yaw: read_u32(ddata, ROTATION_YAW),
            rotation_roll: read_u32(ddata, ROTATION_ROLL),
            angular_velocity_x: read_u32(ddata, ANGULAR_VELOCITY_X),
            angular_velocity_y: read_u32(ddata, ANGULAR_VELOCITY_Y),
            angular_velocity_z: read_u32(ddata, ANGULAR_VELOCITY_Z),
            ride_height_raw: read_u32(ddata, RIDE_HEIGHT),
            rpm: read_u32(ddata, RPM),
            current_fuel: read_u32(ddata, CURRENT_FUEL),
            fuel_capacity: read_u32(ddata, FUEL_CAPACITY),
            speed_raw: read_u32(ddata, SPEED),
            boost_raw: read_u32(ddata, BOOST),
            oil_pressure: read_u32(ddata, OIL_PRESSURE),
            water_temp: read_u32(ddata, WATER_TEMP),
            oil_temp: read_u32(ddata, OIL_TEMP),
            tyre_temp_fl: read_u32(ddata, TYRE_TEMP_FL),
            tyre_temp_fr: read_u32(ddata, TYRE_TEMP_FR),
            tyre_temp_rl: read_u32(ddata, TYRE_TEMP_RL),
            tyre_temp_rr: read_u32(ddata, TYRE_TEMP_RR),
            wheel_speed_fl: read_u32(ddata, WHEEL_SPEED_FL),
            wheel_speed_fr: read_u32(ddata, WHEEL_SPEED_FR),
            wheel_speed_rl: read_u32(ddata, WHEEL_SPEED_RL),
            wheel_speed_rr: read_u32(ddata, WHEEL_SPEED_RR),
            tyre_diameter_fl: read_u32(ddata, TYRE_DIAMETER_FL),
            tyre_diameter_fr: read_u32(ddata, TYRE_DIAMETER_FR),
            tyre_diameter_rl: read_u32(ddata, TYRE_DIAMETER_RL),
            tyre_diameter_rr: read_u32(ddata, TYRE_DIAMETER_RR),
            suspension_fl: read_u32(ddata, SUSPENSION_FL),
            suspension_fr: read_u32(ddata, SUSPENSION_FR),
            suspension_rl: read_u32(ddata, SUSPENSION_RL),
            suspension_rr: read_u32(ddata, SUSPENSION_RR),
            clutch: read_u32(ddata, CLUTCH),
            clutch_engaged: read_u32(ddata, CLUTCH_ENGAGED),
            rpm_after_clutch: read_u32(ddata, RPM_AFTER_CLUTCH),
            gear_1: read_u32(ddata, GEAR_1),
            gear_2: read_u32(ddata, GEAR_2),
            gear_3: read_u32(ddata, GEAR_3),
            gear_4: read_u32(ddata, GEAR_4),
            gear_5: read_u32(ddata, GEAR_5),
            gear_6: read_u32(ddata, GEAR_6),
            gear_7: read_u32(ddata, GEAR_7),
            gear_8: read_u32(ddata, GEAR_8),
            gear_word,
            current_gear: low_nibble(gear_word),
            suggested_gear: high_part(gear_word),
            time_on_track_secs: millis as u64 / 1000,
            is_paused: bit_set(flags, 2),
            in_race: bit_set(flags, 1),
            car_moving: 0 < speed && speed <= 0x7F80_0000,
        }
    }

    /// Decodes a decrypted packet, rejecting one too short to hold every
    /// field.
    pub fn decode(ddata: &[u8]) -> (r: Result<GTData, DecodeError>)
        ensures
            ddata@.len() >= RECORD_LEN ==> r == Ok::<GTData, DecodeError>(decoded(ddata@)),
            ddata@.len() < RECORD_LEN ==> r == Err::<GTData, DecodeError>(
                DecodeError::TooShort { len: ddata@.len() as usize },
            ),
    {
        if ddata.len() < RECORD_LEN {
            Err(DecodeError::TooShort { len: ddata.len() })
        } else {
            Ok(GTData::new(ddata))
        }
    }
}

/// A packet whose raw speed is zero (of either sign) decodes to a stationary
/// car, whatever its tyre speeds: every slip ratio is then reported as
/// "0.00".
pub proof fn lemma_stationary_no_slip(b: Seq<u8>)
    requires
        b.len() >= RECORD_LEN,
        le_u32(b, SPEED as int) == 0 || le_u32(b, SPEED as int) == 0x8000_0000,
    ensures
        !decoded(b).car_moving,
{
}

/// Decoding depends on the first `RECORD_LEN` bytes alone: two buffers that
/// agree on them decode to the same record, and so identical buffers always
/// decode identically.
pub proof fn lemma_decode_deterministic(a: Seq<u8>, b: Seq<u8>)
    requires
        a.len() >= RECORD_LEN,
        b.len() >= RECORD_LEN,
        a.subrange(0, RECORD_LEN as int) == b.subrange(0, RECORD_LEN as int),
    ensures
        decoded(a) == decoded(b),
{
    assert forall|i: int| 0 <= i < RECORD_LEN implies a[i] == b[i] by {
        assert(a[i] == a.subrange(0, RECORD_LEN as int)[i]);
        assert(b[i] == b.subrange(0, RECORD_LEN as int)[i]);
    }
}

} // verus!
