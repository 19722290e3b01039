//! The telemetry snapshot and its wire layout.

use crate::utils::{
    binary32_at, i32_at, i8_at, mismatch, missing, read_binary32, read_i32, read_i8, read_u16,
    read_u32, read_u8, u16_at, u32_at, u8_at, Binary32, LengthMismatch,
};
use vstd::prelude::*;

verus! {

/// The number of bytes of one datagram that the decoder consumes.
pub const MESSAGE_SIZE: usize = 323;

/// One tick of the simulation. Per-wheel values come in the order front left,
/// front right, rear left, rear right. A field of type [`Binary32`] is a
/// single-precision number, held as the 32 bits that the datagram carries.
#[derive(Clone, Copy, Debug, PartialEq, Eq, Structural)]
pub struct TelemetryData {
    /// 1 while a race is on, 0 in menus or when the race is stopped.
    pub is_race_on: i32,
    /// Milliseconds; wraps to 0 on overflow.
    pub timestamp_ms: u32,
    /// Engine speed, in revolutions per minute.
    pub engine_max_rpm: Binary32,
    pub engine_idle_rpm: Binary32,
    pub current_engine_rpm: Binary32,
    /// Acceleration in the car's local space: X right, Y up, Z forward.
    pub acceleration_x: Binary32,
    pub acceleration_y: Binary32,
    pub acceleration_z: Binary32,
    /// Velocity in the car's local space: X right, Y up, Z forward.
    pub velocity_x: Binary32,
    pub velocity_y: Binary32,
    pub velocity_z: Binary32,
    /// Angular velocity in the car's local space: X pitch, Y yaw, Z roll.
    pub angular_velocity_x: Binary32,
    pub angular_velocity_y: Binary32,
    pub angular_velocity_z: Binary32,
    /// Orientation.
    pub yaw: Binary32,
    pub pitch: Binary32,
    pub roll: Binary32,
    /// Suspension travel, normalized: 0.0 is fully stretched, 1.0 fully compressed.
    pub normalized_suspension_travel_front_left: Binary32,
    pub normalized_suspension_travel_front_right: Binary32,
    pub normalized_suspension_travel_rear_left: Binary32,
    pub normalized_suspension_travel_rear_right: Binary32,
    /// Normalized tire slip ratio: 0 is full grip, a magnitude above 1.0 is loss of grip.
    pub tire_slip_ratio_front_left: Binary32,
    pub tire_slip_ratio_front_right: Binary32,
    pub tire_slip_ratio_rear_left: Binary32,
    pub tire_slip_ratio_rear_right: Binary32,
    /// Wheel rotation speed, in radians per second.
    pub wheel_rotation_speed_front_left: Binary32,
    pub wheel_rotation_speed_front_right: Binary32,
    pub wheel_rotation_speed_rear_left: Binary32,
    pub wheel_rotation_speed_rear_right: Binary32,
    /// 1 while the wheel is on a rumble strip, 0 otherwise.
    pub wheel_on_rumble_strip_front_left: i32,
    pub wheel_on_rumble_strip_front_right: i32,
    pub wheel_on_rumble_strip_rear_left: i32,
    pub wheel_on_rumble_strip_rear_right: i32,
    /// Puddle depth under the wheel, from 0 to 1 (deepest).
    pub wheel_in_puddle_depth_front_left: Binary32,
    pub wheel_in_puddle_depth_front_right: Binary32,
    pub wheel_in_puddle_depth_rear_left: Binary32,
    pub wheel_in_puddle_depth_rear_right: Binary32,
    /// Surface rumble passed to controller force feedback, non-dimensional.
    pub surface_rumble_front_left: Binary32,
    pub surface_rumble_front_right: Binary32,
    pub surface_rumble_rear_left: Binary32,
    pub surface_rumble_rear_right: Binary32,
    /// Normalized tire slip angle: 0 is full grip, a magnitude above 1.0 is loss of grip.
    pub trire_slip_angle_front_left: Binary32,
    pub trire_slip_angle_front_right: Binary32,
    pub trire_slip_angle_rear_left: Binary32,
    pub trire_slip_angle_rear_right: Binary32,
    /// Normalized combined tire slip: 0 is full grip, a magnitude above 1.0 is loss of grip.
    pub tire_combined_slip_front_left: Binary32,
    pub tire_combined_slip_front_right: Binary32,
    pub tire_combined_slip_rear_left: Binary32,
    pub tire_combined_slip_rear_right: Binary32,
    /// Suspension travel, in meters.
    pub suspension_travel_meters_front_left: Binary32,
    pub suspension_travel_meters_front_right: Binary32,
    pub suspension_travel_meters_rear_left: Binary32,
    pub suspension_travel_meters_rear_right: Binary32,
    /// Identifier of the car make and model.
    pub car_ordinal: i32,
    /// From 0 (class D) to 7 (class X).
    pub car_class: i32,
    /// From 100 (slowest) to 999 (fastest).
    pub car_performance_index: i32,
    /// 0 is front-wheel drive, 1 rear-wheel drive, 2 all-wheel drive.
    pub drivetrain_type: i32,
    /// Number of engine cylinders.
    pub num_cylinders: i32,
    /// Position in world space, in meters.
    pub position_x: Binary32,
    pub position_y: Binary32,
    pub position_z: Binary32,
    /// Meters per second.
    pub speed: Binary32,
    /// Watts.
    pub power: Binary32,
    /// Newton meters.
    pub torque: Binary32,
    /// Tire temperatures.
    pub tire_temp_front_left: Binary32,
    pub tire_temp_front_right: Binary32,
    pub tire_temp_rear_left: Binary32,
    pub tire_temp_rear_right: Binary32,
    /// Boost, fuel level and distance traveled.
    pub boost: Binary32,
    pub fuel: Binary32,
    pub distance_traveled: Binary32,
    /// Lap and race times.
    pub best_lap: Binary32,
    pub last_lap: Binary32,
    pub current_lap: Binary32,
    pub current_race_time: Binary32,
    /// Lap count and place in the race.
    pub lap_number: u16,
    pub race_position: u8,
    /// Echo of the driver input.
    pub accel: u8,
    pub brake: u8,
    pub clutch: u8,
    pub hand_brake: u8,
    pub gear: u8,
    pub steer: i8,
    /// Normalized driving line and AI brake difference.
    pub normalized_driving_line: i8,
    pub normalized_ai_brake_difference: i8,
}

/// The snapshot that the first [`MESSAGE_SIZE`] bytes of `b` spell. Every
/// field is a little-endian reading at a fixed offset; the fields are packed
/// without padding, but for the span `[232, 244)`, which belongs to no field.
pub open spec fn decode(b: Seq<u8>) -> TelemetryData
    recommends
        b.len() >= MESSAGE_SIZE,
{
    TelemetryData {
        is_race_on: i32_at(b, 0),
        timestamp_ms: u32_at(b, 4),
        engine_max_rpm: binary32_at(b, 8),
        engine_idle_rpm: binary32_at(b, 12),
        current_engine_rpm: binary32_at(b, 16),
        acceleration_x: binary32_at(b, 20),
        acceleration_y: binary32_at(b, 24),
        acceleration_z: binary32_at(b, 28),
        velocity_x: binary32_at(b, 32),
        velocity_y: binary32_at(b, 36),
        velocity_z: binary32_at(b, 40),
        angular_velocity_x: binary32_at(b, 44),
        angular_velocity_y: binary32_at(b, 48),
        angular_velocity_z: binary32_at(b, 52),
        yaw: binary32_at(b, 56),
        pitch: binary32_at(b, 60),
        roll: binary32_at(b, 64),
        normalized_suspension_travel_front_left: binary32_at(b, 68),
        normalized_suspension_travel_front_right: binary32_at(b, 72),
        normalized_suspension_travel_rear_left: binary32_at(b, 76),
        normalized_suspension_travel_rear_right: binary32_at(b, 80),
        tire_slip_ratio_front_left: binary32_at(b, 84),
        tire_slip_ratio_front_right: binary32_at(b, 88),
        tire_slip_ratio_rear_left: binary32_at(b, 92),
        tire_slip_ratio_rear_right: binary32_at(b, 96),
        wheel_rotation_speed_front_left: binary32_at(b, 100),
        wheel_rotation_speed_front_right: binary32_at(b, 104),
        wheel_rotation_speed_rear_left: binary32_at(b, 108),
        wheel_rotation_speed_rear_right: binary32_at(b, 112),
        wheel_on_rumble_strip_front_left: i32_at(b, 116),
        wheel_on_rumble_strip_front_right: i32_at(b, 120),
        wheel_on_rumble_strip_rear_left: i32_at(b, 124),
        wheel_on_rumble_strip_rear_right: i32_at(b, 128),
        wheel_in_puddle_depth_front_left: binary32_at(b, 132),
        wheel_in_puddle_depth_front_right: binary32_at(b, 136),
        wheel_in_puddle_depth_rear_left: binary32_at(b, 140),
        wheel_in_puddle_depth_rear_right: binary32_at(b, 144),
        surface_rumble_front_left: binary32_at(b, 148),
        surface_rumble_front_right: binary32_at(b, 152),
        surface_rumble_rear_left: binary32_at(b, 156),
        surface_rumble_rear_right: binary32_at(b, 160),
        trire_slip_angle_front_left: binary32_at(b, 164),
        trire_slip_angle_front_right: binary32_at(b, 168),
        trire_slip_angle_rear_left: binary32_at(b, 172),
        trire_slip_angle_rear_right: binary32_at(b, 176),
        tire_combined_slip_front_left: binary32_at(b, 180),
        tire_combined_slip_front_right: binary32_at(b, 184),
        tire_combined_slip_rear_left: binary32_at(b, 188),
        tire_combined_slip_rear_right: binary32_at(b, 192),
        suspension_travel_meters_front_left: binary32_at(b, 196),
        suspension_travel_meters_front_right: binary32_at(b, 200),
        suspension_travel_meters_rear_left: binary32_at(b, 204),
        suspension_travel_meters_rear_right: binary32_at(b, 208),
        car_ordinal: i32_at(b, 212),
        car_class: i32_at(b, 216),
        car_performance_index: i32_at(b, 220),
        drivetrain_type: i32_at(b, 224),
        num_cylinders: i32_at(b, 228),
        position_x: binary32_at(b, 244),
        position_y: binary32_at(b, 248),
        position_z: binary32_at(b, 252),
        speed: binary32_at(b, 256),
        power: binary32_at(b, 260),
        torque: binary32_at(b, 264),
        tire_temp_front_left: binary32_at(b, 268),
        tire_temp_front_right: binary32_at(b, 272),
        tire_temp_rear_left: binary32_at(b, 276),
        tire_temp_rear_right: binary32_at(b, 280),
        boost: binary32_at(b, 284),
        fuel: binary32_at(b, 288),
        distance_traveled: binary32_at(b, 292),
        best_lap: binary32_at(b, 296),
        last_lap: binary32_at(b, 300),
        current_lap: binary32_at(b, 304),
        current_race_time: binary32_at(b, 308),
        lap_number: u16_at(b, 312),
        race_position: u8_at(b, 314),
        accel: u8_at(b, 315),
        brake: u8_at(b, 316),
        clutch: u8_at(b, 317),
        hand_brake: u8_at(b, 318),
        gear: u8_at(b, 319),
        steer: i8_at(b, 320),
        normalized_driving_line: i8_at(b, 321),
        normalized_ai_brake_difference: i8_at(b, 322),
    }
}

/// The failure on a buffer of `len` bytes that is too short: the one of the
/// first field, in wire order, that the buffer does not hold whole. It names
/// that field's width and the number of its bytes that are there.
pub open spec fn short_read(len: nat) -> LengthMismatch
    recommends
        len < MESSAGE_SIZE,
{
    if len < 232 {
        mismatch(4, len % 4)
    } else if len < 244 {
        mismatch(4, 0)
    } else if len < 312 {
        mismatch(4, len % 4)
    } else if len < 314 {
        mismatch(2, (len - 312) as nat)
    } else {
        mismatch(1, 0)
    }
}

/// Whether a field of `width` bytes at `offset` is the first one, in wire
/// order, that a buffer of `len` bytes does not hold whole.
spec fn first_missing(len: nat, offset: nat, width: nat) -> bool {
    ||| width == 4 && offset % 4 == 0 && offset < 232 && offset <= len < offset + 4
    ||| width == 4 && offset == 244 && 232 <= len < 248
    ||| width == 4 && offset % 4 == 0 && 248 <= offset < 312 && offset <= len < offset + 4
    ||| width == 2 && offset == 312 && 312 <= len < 314
    ||| width == 1 && 314 <= offset < 323 && len == offset
}

/// The closed form of [`short_read`] is the failure of the first missing
/// field, whichever field that is.
proof fn lemma_short_read(len: nat)
    ensures
        forall|offset: nat, width: nat| #![trigger missing(len, offset, width)]
            first_missing(len, offset, width) ==> short_read(len) == missing(len, offset, width),
{
    reveal(missing);
}

/// Decodes one datagram. Bytes after the first [`MESSAGE_SIZE`] are ignored.
pub fn parse(buffer: &[u8]) -> (r: Result<TelemetryData, LengthMismatch>)
    ensures
        buffer@.len() >= MESSAGE_SIZE ==> r == Ok::<TelemetryData, LengthMismatch>(
            decode(buffer@),
        ),
        buffer@.len() < MESSAGE_SIZE ==> r == Err::<TelemetryData, LengthMismatch>(
            short_read(buffer@.len()),
        ),
{
    proof {
        lemma_short_read(buffer@.len());
    }
    Ok(
        TelemetryData {
            is_race_on: read_i32(buffer, 0)?,
            timestamp_ms: read_u32(buffer, 4)?,
            engine_max_rpm: read_binary32(buffer, 8)?,
            engine_idle_rpm: read_binary32(buffer, 12)?,
            current_engine_rpm: read_binary32(buffer, 16)?,
            acceleration_x: read_binary32(buffer, 20)?,
            acceleration_y: read_binary32(buffer, 24)?,
            acceleration_z: read_binary32(buffer, 28)?,
            velocity_x: read_binary32(buffer, 32)?,
            velocity_y: read_binary32(buffer, 36)?,
            velocity_z: read_binary32(buffer, 40)?,
            angular_velocity_x: read_binary32(buffer, 44)?,
            angular_velocity_y: read_binary32(buffer, 48)?,
            angular_velocity_z: read_binary32(buffer, 52)?,
            yaw: read_binary32(buffer, 56)?,
            pitch: read_binary32(buffer, 60)?,
            roll: read_binary32(buffer, 64)?,
            normalized_suspension_travel_front_left: read_binary32(buffer, 68)?,
            normalized_suspension_travel_front_right: read_binary32(buffer, 72)?,
            normalized_suspension_travel_rear_left: read_binary32(buffer, 76)?,
            normalized_suspension_travel_rear_right: read_binary32(buffer, 80)?,
            tire_slip_ratio_front_left: read_binary32(buffer, 84)?,
            tire_slip_ratio_front_right: read_binary32(buffer, 88)?,
            tire_slip_ratio_rear_left: read_binary32(buffer, 92)?,
            tire_slip_ratio_rear_right: read_binary32(buffer, 96)?,
            wheel_rotation_speed_front_left: read_binary32(buffer, 100)?,
            wheel_rotation_speed_front_right: read_binary32(buffer, 104)?,
            wheel_rotation_speed_rear_left: read_binary32(buffer, 108)?,
            wheel_rotation_speed_rear_right: read_binary32(buffer, 112)?,
            wheel_on_rumble_strip_front_left: read_i32(buffer, 116)?,
            wheel_on_rumble_strip_front_right: read_i32(buffer, 120)?,
            wheel_on_rumble_strip_rear_left: read_i32(buffer, 124)?,
            wheel_on_rumble_strip_rear_right: read_i32(buffer, 128)?,
            wheel_in_puddle_depth_front_left: read_binary32(buffer, 132)?,
            wheel_in_puddle_depth_front_right: read_binary32(buffer, 136)?,
            wheel_in_puddle_depth_rear_left: read_binary32(buffer, 140)?,
            wheel_in_puddle_depth_rear_right: read_binary32(buffer, 144)?,
            surface_rumble_front_left: read_binary32(buffer, 148)?,
            surface_rumble_front_right: read_binary32(buffer, 152)?,
            surface_rumble_rear_left: read_binary32(buffer, 156)?,
            surface_rumble_rear_right: read_binary32(buffer, 160)?,
            trire_slip_angle_front_left: read_binary32(buffer, 164)?,
            trire_slip_angle_front_right: read_binary32(buffer, 168)?,
            trire_slip_angle_rear_left: read_binary32(buffer, 172)?,
            trire_slip_angle_rear_right: read_binary32(buffer, 176)?,
            tire_combined_slip_front_left: read_binary32(buffer, 180)?,
            tire_combined_slip_front_right: read_binary32(buffer, 184)?,
            tire_combined_slip_rear_left: read_binary32(buffer, 188)?,
            tire_combined_slip_rear_right: read_binary32(buffer, 192)?,
            suspension_travel_meters_front_left: read_binary32(buffer, 196)?,
            suspension_travel_meters_front_right: read_binary32(buffer, 200)?,
            suspension_travel_meters_rear_left: read_binary32(buffer, 204)?,
            suspension_travel_meters_rear_right: read_binary32(buffer, 208)?,
            car_ordinal: read_i32(buffer, 212)?,
            car_class: read_i32(buffer, 216)?,
            car_performance_index: read_i32(buffer, 220)?,
            drivetrain_type: read_i32(buffer, 224)?,
            num_cylinders: read_i32(buffer, 228)?,
            position_x: read_binary32(buffer, 244)?,
            position_y: read_binary32(buffer, 248)?,
            position_z: read_binary32(buffer, 252)?,
            speed: read_binary32(buffer, 256)?,
            power: read_binary32(buffer, 260)?,
            torque: read_binary32(buffer, 264)?,
            tire_temp_front_left: read_binary32(buffer, 268)?,
            tire_temp_front_right: read_binary32(buffer, 272)?,
            tire_temp_rear_left: read_binary32(buffer, 276)?,
            tire_temp_rear_right: read_binary32(buffer, 280)?,
            boost: read_binary32(buffer, 284)?,
            fuel: read_binary32(buffer, 288)?,
            distance_traveled: read_binary32(buffer, 292)?,
            best_lap: read_binary32(buffer, 296)?,
            last_lap: read_binary32(buffer, 300)?,
            current_lap: read_binary32(buffer, 304)?,
            current_race_time: read_binary32(buffer, 308)?,
            lap_number: read_u16(buffer, 312)?,
            race_position: read_u8(buffer, 314)?,
            accel: read_u8(buffer, 315)?,
            brake: read_u8(buffer, 316)?,
            clutch: read_u8(buffer, 317)?,
            hand_brake: read_u8(buffer, 318)?,
            gear: read_u8(buffer, 319)?,
            steer: read_i8(buffer, 320)?,
            normalized_driving_line: read_i8(buffer, 321)?,
            normalized_ai_brake_difference: read_i8(buffer, 322)?,
        },
    )
}

/// The failure on a short buffer is a true mismatch: the field it names is
/// one, two or four bytes wide, and fewer of its bytes are there.
pub proof fn lemma_short_read_is_short(len: nat)
    requires
        len < MESSAGE_SIZE,
    ensures
        short_read(len).expected == 1 || short_read(len).expected == 2 || short_read(len).expected
            == 4,
        short_read(len).actual < short_read(len).expected,
{
}

/// Decoding reads the first [`MESSAGE_SIZE`] bytes and nothing after them:
/// two buffers that agree there decode to the same snapshot.
pub proof fn lemma_decode_reads_message_only(a: Seq<u8>, b: Seq<u8>)
    requires
        a.len() >= MESSAGE_SIZE,
        b.len() >= MESSAGE_SIZE,
        forall|i: int| 0 <= i < MESSAGE_SIZE ==> a[i] == b[i],
    ensures
        decode(a) == decode(b),
{
}

/// The four bytes from offset 256 on belong to `speed` alone: two buffers that
/// differ only there decode to snapshots that differ at most in `speed`, which
/// is what those four bytes spell.
pub proof fn lemma_speed_bytes_reach_speed_only(a: Seq<u8>, b: Seq<u8>)
    requires
        a.len() >= MESSAGE_SIZE,
        b.len() >= MESSAGE_SIZE,
        forall|i: int| 0 <= i < MESSAGE_SIZE && !(256 <= i < 260) ==> a[i] == b[i],
    ensures
        decode(b) == (TelemetryData { speed: binary32_at(b, 256), ..decode(a) }),
{
}

/// No field reads the span `[232, 244)`: two buffers that differ only there
/// decode to the same snapshot.
pub proof fn lemma_reserved_span_is_inert(a: Seq<u8>, b: Seq<u8>)
    requires
        a.len() >= MESSAGE_SIZE,
        b.len() >= MESSAGE_SIZE,
        forall|i: int| 0 <= i < MESSAGE_SIZE && !(232 <= i < 244) ==> a[i] == b[i],
    ensures
        decode(a) == decode(b),
{
}

} // verus!
