//! The datagram that spells a snapshot, and the proofs that spelling and
//! decoding undo each other.
//!
//! The datagram is built group by group, each group appending its fields to
//! the bytes so far. The groups keep every proof about the concatenation
//! short: a byte is found by stepping over whole groups first.

use crate::forza::{decode, lemma_reserved_span_is_inert, TelemetryData, MESSAGE_SIZE};
use crate::utils::{
    lemma_u16_bytes_of_le, lemma_u16_le_of_bytes, lemma_u32_bytes_of_le, lemma_u32_le_of_bytes,
    pattern32, pattern8, u16_bytes, u16_le, u32_bytes, u32_le, write_binary32, write_i32,
    write_i8, write_u16, write_u32, write_u8,
};
use vstd::prelude::*;

verus! {

/// `b` followed by the session flags and the engine state of `s`, in wire
/// order: 20 bytes.
pub open spec fn put_session(b: Seq<u8>, s: TelemetryData) -> Seq<u8> {
    b
        + u32_bytes(pattern32(s.is_race_on))
        + u32_bytes(s.timestamp_ms)
        + u32_bytes(s.engine_max_rpm.bits)
        + u32_bytes(s.engine_idle_rpm.bits)
        + u32_bytes(s.current_engine_rpm.bits)
}

/// `b` followed by the acceleration, velocity, angular velocity and orientation
/// of `s`, in wire order: 48 bytes.
pub open spec fn put_motion(b: Seq<u8>, s: TelemetryData) -> Seq<u8> {
    b
        + u32_bytes(s.acceleration_x.bits)
        + u32_bytes(s.acceleration_y.bits)
        + u32_bytes(s.acceleration_z.bits)
        + u32_bytes(s.velocity_x.bits)
        + u32_bytes(s.velocity_y.bits)
        + u32_bytes(s.velocity_z.bits)
        + u32_bytes(s.angular_velocity_x.bits)
        + u32_bytes(s.angular_velocity_y.bits)
        + u32_bytes(s.angular_velocity_z.bits)
        + u32_bytes(s.yaw.bits)
        + u32_bytes(s.pitch.bits)
        + u32_bytes(s.roll.bits)
}

/// `b` followed by the per-wheel suspension travel, slip ratio, rotation speed
/// and rumble-strip flags of `s`, in wire order: 64 bytes.
pub open spec fn put_wheels(b: Seq<u8>, s: TelemetryData) -> Seq<u8> {
    b
        + u32_bytes(s.normalized_suspension_travel_front_left.bits)
        + u32_bytes(s.normalized_suspension_travel_front_right.bits)
        + u32_bytes(s.normalized_suspension_travel_rear_left.bits)
        + u32_bytes(s.normalized_suspension_travel_rear_right.bits)
        + u32_bytes(s.tire_slip_ratio_front_left.bits)
        + u32_bytes(s.tire_slip_ratio_front_right.bits)
        + u32_bytes(s.tire_slip_ratio_rear_left.bits)
        + u32_bytes(s.tire_slip_ratio_rear_right.bits)
        + u32_bytes(s.wheel_rotation_speed_front_left.bits)
        + u32_bytes(s.wheel_rotation_speed_front_right.bits)
        + u32_bytes(s.wheel_rotation_speed_rear_left.bits)
        + u32_bytes(s.wheel_rotation_speed_rear_right.bits)
        + u32_bytes(pattern32(s.wheel_on_rumble_strip_front_left))
        + u32_bytes(pattern32(s.wheel_on_rumble_strip_front_right))
        + u32_bytes(pattern32(s.wheel_on_rumble_strip_rear_left))
        + u32_bytes(pattern32(s.wheel_on_rumble_strip_rear_right))
}

/// `b` followed by the per-wheel puddle depth, surface rumble, slip angle,
/// combined slip and suspension travel in meters of `s`, in wire order: 80
/// bytes.
pub open spec fn put_tires(b: Seq<u8>, s: TelemetryData) -> Seq<u8> {
    b
        + u32_bytes(s.wheel_in_puddle_depth_front_left.bits)
        + u32_bytes(s.wheel_in_puddle_depth_front_right.bits)
        + u32_bytes(s.wheel_in_puddle_depth_rear_left.bits)
        + u32_bytes(s.wheel_in_puddle_depth_rear_right.bits)
        + u32_bytes(s.surface_rumble_front_left.bits)
        + u32_bytes(s.surface_rumble_front_right.bits)
        + u32_bytes(s.surface_rumble_rear_left.bits)
        + u32_bytes(s.surface_rumble_rear_right.bits)
        + u32_bytes(s.trire_slip_angle_front_left.bits)
        + u32_bytes(s.trire_slip_angle_front_right.bits)
        + u32_bytes(s.trire_slip_angle_rear_left.bits)
        + u32_bytes(s.trire_slip_angle_rear_right.bits)
        + u32_bytes(s.tire_combined_slip_front_left.bits)
        + u32_bytes(s.tire_combined_slip_front_right.bits)
        + u32_bytes(s.tire_combined_slip_rear_left.bits)
        + u32_bytes(s.tire_combined_slip_rear_right.bits)
        + u32_bytes(s.suspension_travel_meters_front_left.bits)
        + u32_bytes(s.suspension_travel_meters_front_right.bits)
        + u32_bytes(s.suspension_travel_meters_rear_left.bits)
        + u32_bytes(s.suspension_travel_meters_rear_right.bits)
}

/// `b` followed by the identity of the car of `s`, in wire order: 20 bytes.
pub open spec fn put_car(b: Seq<u8>, s: TelemetryData) -> Seq<u8> {
    b
        + u32_bytes(pattern32(s.car_ordinal))
        + u32_bytes(pattern32(s.car_class))
        + u32_bytes(pattern32(s.car_performance_index))
        + u32_bytes(pattern32(s.drivetrain_type))
        + u32_bytes(pattern32(s.num_cylinders))
}

/// `b` followed by the twelve bytes that belong to no field, as zeros.
pub open spec fn put_reserved(b: Seq<u8>) -> Seq<u8> {
    b + Seq::new(12, |i: int| 0u8)
}

/// `b` followed by the position, the drivetrain output, the tire temperatures
/// and the lap times of `s`, in wire order: 68 bytes.
pub open spec fn put_world(b: Seq<u8>, s: TelemetryData) -> Seq<u8> {
    b
        + u32_bytes(s.position_x.bits)
        + u32_bytes(s.position_y.bits)
        + u32_bytes(s.position_z.bits)
        + u32_bytes(s.speed.bits)
        + u32_bytes(s.power.bits)
        + u32_bytes(s.torque.bits)
        + u32_bytes(s.tire_temp_front_left.bits)
        + u32_bytes(s.tire_temp_front_right.bits)
        + u32_bytes(s.tire_temp_rear_left.bits)
        + u32_bytes(s.tire_temp_rear_right.bits)
        + u32_bytes(s.boost.bits)
        + u32_bytes(s.fuel.bits)
        + u32_bytes(s.distance_traveled.bits)
        + u32_bytes(s.best_lap.bits)
        + u32_bytes(s.last_lap.bits)
        + u32_bytes(s.current_lap.bits)
        + u32_bytes(s.current_race_time.bits)
}

/// `b` followed by the race standing and the echo of the driver input of `s`,
/// in wire order: 11 bytes.
pub open spec fn put_driver(b: Seq<u8>, s: TelemetryData) -> Seq<u8> {
    b
        + u16_bytes(s.lap_number)
        + seq![s.race_position]
        + seq![s.accel]
        + seq![s.brake]
        + seq![s.clutch]
        + seq![s.hand_brake]
        + seq![s.gear]
        + seq![pattern8(s.steer)]
        + seq![pattern8(s.normalized_driving_line)]
        + seq![pattern8(s.normalized_ai_brake_difference)]
}

/// The datagram that spells `s`: its fields in wire order, each least
/// significant byte first, with the reserved span after `num_cylinders`.
pub open spec fn encode(s: TelemetryData) -> Seq<u8> {
    let b = put_session(Seq::empty(), s);
    let b = put_motion(b, s);
    let b = put_wheels(b, s);
    let b = put_tires(b, s);
    let b = put_car(b, s);
    let b = put_reserved(b);
    let b = put_world(b, s);
    put_driver(b, s)
}

/// The first [`MESSAGE_SIZE`] bytes of `b`, with the reserved span as zeros.
pub open spec fn canonical(b: Seq<u8>) -> Seq<u8> {
    put_reserved(b.subrange(0, 232)) + b.subrange(244, MESSAGE_SIZE as int)
}

/// Appends the reserved span.
fn write_reserved(out: &mut Vec<u8>)
    ensures
        final(out)@ == put_reserved(old(out)@),
{
    let mut i: usize = 0;
    while i < 12
        invariant
            i <= 12,
            out@ == old(out)@ + Seq::new(i as nat, |j: int| 0u8),
        decreases 12 - i,
    {
        out.push(0);
        i += 1;
    }
}

impl TelemetryData {
    /// Appends the session flags and the engine state.
    fn write_session(&self, out: &mut Vec<u8>)
        ensures
            final(out)@ == put_session(old(out)@, *self),
    {
        write_i32(out, self.is_race_on);
        write_u32(out, self.timestamp_ms);
        write_binary32(out, self.engine_max_rpm);
        write_binary32(out, self.engine_idle_rpm);
        write_binary32(out, self.current_engine_rpm);
    }

    /// Appends the acceleration, velocity, angular velocity and orientation.
    fn write_motion(&self, out: &mut Vec<u8>)
        ensures
            final(out)@ == put_motion(old(out)@, *self),
    {
        write_binary32(out, self.acceleration_x);
        write_binary32(out, self.acceleration_y);
        write_binary32(out, self.acceleration_z);
        write_binary32(out, self.velocity_x);
        write_binary32(out, self.velocity_y);
        write_binary32(out, self.velocity_z);
        write_binary32(out, self.angular_velocity_x);
        write_binary32(out, self.angular_velocity_y);
        write_binary32(out, self.angular_velocity_z);
        write_binary32(out, self.yaw);
        write_binary32(out, self.pitch);
        write_binary32(out, self.roll);
    }

    /// Appends the per-wheel suspension travel, slip ratio, rotation speed and
    /// rumble-strip flags.
    fn write_wheels(&self, out: &mut Vec<u8>)
        ensures
            final(out)@ == put_wheels(old(out)@, *self),
    {
        write_binary32(out, self.normalized_suspension_travel_front_left);
        write_binary32(out, self.normalized_suspension_travel_front_right);
        write_binary32(out, self.normalized_suspension_travel_rear_left);
        write_binary32(out, self.normalized_suspension_travel_rear_right);
        write_binary32(out, self.tire_slip_ratio_front_left);
        write_binary32(out, self.tire_slip_ratio_front_right);
        write_binary32(out, self.tire_slip_ratio_rear_left);
        write_binary32(out, self.tire_slip_ratio_rear_right);
        write_binary32(out, self.wheel_rotation_speed_front_left);
        write_binary32(out, self.wheel_rotation_speed_front_right);
        write_binary32(out, self.wheel_rotation_speed_rear_left);
        write_binary32(out, self.wheel_rotation_speed_rear_right);
        write_i32(out, self.wheel_on_rumble_strip_front_left);
        write_i32(out, self.wheel_on_rumble_strip_front_right);
        write_i32(out, self.wheel_on_rumble_strip_rear_left);
        write_i32(out, self.wheel_on_rumble_strip_rear_right);
    }

    /// Appends the per-wheel puddle depth, surface rumble, slip angle, combined
    /// slip and suspension travel in meters.
    fn write_tires(&self, out: &mut Vec<u8>)
        ensures
            final(out)@ == put_tires(old(out)@, *self),
    {
        write_binary32(out, self.wheel_in_puddle_depth_front_left);
        write_binary32(out, self.wheel_in_puddle_depth_front_right);
        write_binary32(out, self.wheel_in_puddle_depth_rear_left);
        write_binary32(out, self.wheel_in_puddle_depth_rear_right);
        write_binary32(out, self.surface_rumble_front_left);
        write_binary32(out, self.surface_rumble_front_right);
        write_binary32(out, self.surface_rumble_rear_left);
        write_binary32(out, self.surface_rumble_rear_right);
        write_binary32(out, self.trire_slip_angle_front_left);
        write_binary32(out, self.trire_slip_angle_front_right);
        write_binary32(out, self.trire_slip_angle_rear_left);
        write_binary32(out, self.trire_slip_angle_rear_right);
        write_binary32(out, self.tire_combined_slip_front_left);
        write_binary32(out, self.tire_combined_slip_front_right);
        write_binary32(out, self.tire_combined_slip_rear_left);
        write_binary32(out, self.tire_combined_slip_rear_right);
        write_binary32(out, self.suspension_travel_meters_front_left);
        write_binary32(out, self.suspension_travel_meters_front_right);
        write_binary32(out, self.suspension_travel_meters_rear_left);
        write_binary32(out, self.suspension_travel_meters_rear_right);
    }

    /// Appends the identity of the car.
    fn write_car(&self, out: &mut Vec<u8>)
        ensures
            final(out)@ == put_car(old(out)@, *self),
    {
        write_i32(out, self.car_ordinal);
        write_i32(out, self.car_class);
        write_i32(out, self.car_performance_index);
        write_i32(out, self.drivetrain_type);
        write_i32(out, self.num_cylinders);
    }

    /// Appends the position, the drivetrain output, the tire temperatures and
    /// the lap times.
    fn write_world(&self, out: &mut Vec<u8>)
        ensures
            final(out)@ == put_world(old(out)@, *self),
    {
        write_binary32(out, self.position_x);
        write_binary32(out, self.position_y);
        write_binary32(out, self.position_z);
        write_binary32(out, self.speed);
        write_binary32(out, self.power);
        write_binary32(out, self.torque);
        write_binary32(out, self.tire_temp_front_left);
        write_binary32(out, self.tire_temp_front_right);
        write_binary32(out, self.tire_temp_rear_left);
        write_binary32(out, self.tire_temp_rear_right);
        write_binary32(out, self.boost);
        write_binary32(out, self.fuel);
        write_binary32(out, self.distance_traveled);
        write_binary32(out, self.best_lap);
        write_binary32(out, self.last_lap);
        write_binary32(out, self.current_lap);
        write_binary32(out, self.current_race_time);
    }

    /// Appends the race standing and the echo of the driver input.
    fn write_driver(&self, out: &mut Vec<u8>)
        ensures
            final(out)@ == put_driver(old(out)@, *self),
    {
        write_u16(out, self.lap_number);
        write_u8(out, self.race_position);
        write_u8(out, self.accel);
        write_u8(out, self.brake);
        write_u8(out, self.clutch);
        write_u8(out, self.hand_brake);
        write_u8(out, self.gear);
        write_i8(out, self.steer);
        write_i8(out, self.normalized_driving_line);
        write_i8(out, self.normalized_ai_brake_difference);
    }

    /// Spells the snapshot as a datagram of [`MESSAGE_SIZE`] bytes.
    pub fn to_bytes(&self) -> (out: Vec<u8>)
        ensures
            out@ == encode(*self),
    {
        let mut out: Vec<u8> = Vec::with_capacity(MESSAGE_SIZE);
        self.write_session(&mut out);
        self.write_motion(&mut out);
        self.write_wheels(&mut out);
        self.write_tires(&mut out);
        self.write_car(&mut out);
        write_reserved(&mut out);
        self.write_world(&mut out);
        self.write_driver(&mut out);
        out
    }
}

/// Whether `e` begins with the bytes of `p`.
spec fn starts_with(e: Seq<u8>, p: Seq<u8>) -> bool {
    p.len() <= e.len() && forall|i: int| 0 <= i < p.len() ==> e[i] == p[i]
}

/// Reading what was spelled gives the number back, for every number at once.
proof fn lemma_spelled()
    ensures
        forall|x: u32| #![trigger u32_bytes(x)] u32_bytes(x).len() == 4 && u32_le(u32_bytes(x)) == x,
        forall|x: u16| #![trigger u16_bytes(x)] u16_bytes(x).len() == 2 && u16_le(u16_bytes(x)) == x,
{
    assert forall|x: u32| #![trigger u32_bytes(x)]
        u32_bytes(x).len() == 4 && u32_le(u32_bytes(x)) == x by {
        lemma_u32_le_of_bytes(x);
    }
    assert forall|x: u16| #![trigger u16_bytes(x)]
        u16_bytes(x).len() == 2 && u16_le(u16_bytes(x)) == x by {
        lemma_u16_le_of_bytes(x);
    }
}

/// The group adds 20 bytes and leaves the bytes before it as they were.
proof fn lemma_put_session(b: Seq<u8>, s: TelemetryData)
    ensures
        put_session(b, s).len() == b.len() + 20,
        starts_with(put_session(b, s), b),
{
}

/// The group adds 48 bytes and leaves the bytes before it as they were.
proof fn lemma_put_motion(b: Seq<u8>, s: TelemetryData)
    ensures
        put_motion(b, s).len() == b.len() + 48,
        starts_with(put_motion(b, s), b),
{
}

/// The group adds 64 bytes and leaves the bytes before it as they were.
proof fn lemma_put_wheels(b: Seq<u8>, s: TelemetryData)
    ensures
        put_wheels(b, s).len() == b.len() + 64,
        starts_with(put_wheels(b, s), b),
{
}

/// The group adds 80 bytes and leaves the bytes before it as they were.
proof fn lemma_put_tires(b: Seq<u8>, s: TelemetryData)
    ensures
        put_tires(b, s).len() == b.len() + 80,
        starts_with(put_tires(b, s), b),
{
}

/// The group adds 20 bytes and leaves the bytes before it as they were.
proof fn lemma_put_car(b: Seq<u8>, s: TelemetryData)
    ensures
        put_car(b, s).len() == b.len() + 20,
        starts_with(put_car(b, s), b),
{
}

/// The reserved span adds 12 bytes and leaves the bytes before it as they were.
proof fn lemma_put_reserved(b: Seq<u8>)
    ensures
        put_reserved(b).len() == b.len() + 12,
        starts_with(put_reserved(b), b),
{
}

/// The group adds 68 bytes and leaves the bytes before it as they were.
proof fn lemma_put_world(b: Seq<u8>, s: TelemetryData)
    ensures
        put_world(b, s).len() == b.len() + 68,
        starts_with(put_world(b, s), b),
{
}

/// The group adds 11 bytes and leaves the bytes before it as they were.
proof fn lemma_put_driver(b: Seq<u8>, s: TelemetryData)
    ensures
        put_driver(b, s).len() == b.len() + 11,
        starts_with(put_driver(b, s), b),
{
}

/// A datagram that holds the group at offset 0 decodes to the group's fields of
/// `s`.
proof fn lemma_read_session(e: Seq<u8>, b: Seq<u8>, s: TelemetryData)
    requires
        b.len() == 0,
        starts_with(e, put_session(b, s)),
    ensures
        decode(e).is_race_on == s.is_race_on,
        decode(e).timestamp_ms == s.timestamp_ms,
        decode(e).engine_max_rpm == s.engine_max_rpm,
        decode(e).engine_idle_rpm == s.engine_idle_rpm,
        decode(e).current_engine_rpm == s.current_engine_rpm,
{
    lemma_spelled();
}

/// A datagram that holds the group at offset 20 decodes to the group's fields
/// of `s`.
proof fn lemma_read_motion(e: Seq<u8>, b: Seq<u8>, s: TelemetryData)
    requires
        b.len() == 20,
        starts_with(e, put_motion(b, s)),
    ensures
        decode(e).acceleration_x == s.acceleration_x,
        decode(e).acceleration_y == s.acceleration_y,
        decode(e).acceleration_z == s.acceleration_z,
        decode(e).velocity_x == s.velocity_x,
        decode(e).velocity_y == s.velocity_y,
        decode(e).velocity_z == s.velocity_z,
        decode(e).angular_velocity_x == s.angular_velocity_x,
        decode(e).angular_velocity_y == s.angular_velocity_y,
        decode(e).angular_velocity_z == s.angular_velocity_z,
        decode(e).yaw == s.yaw,
        decode(e).pitch == s.pitch,
        decode(e).roll == s.roll,
{
    lemma_spelled();
}

/// A datagram that holds the group at offset 68 decodes to the group's fields
/// of `s`.
proof fn lemma_read_wheels(e: Seq<u8>, b: Seq<u8>, s: TelemetryData)
    requires
        b.len() == 68,
        starts_with(e, put_wheels(b, s)),
    ensures
        decode(e).normalized_suspension_travel_front_left == s.normalized_suspension_travel_front_left,
        decode(e).normalized_suspension_travel_front_right == s.normalized_suspension_travel_front_right,
        decode(e).normalized_suspension_travel_rear_left == s.normalized_suspension_travel_rear_left,
        decode(e).normalized_suspension_travel_rear_right == s.normalized_suspension_travel_rear_right,
        decode(e).tire_slip_ratio_front_left == s.tire_slip_ratio_front_left,
        decode(e).tire_slip_ratio_front_right == s.tire_slip_ratio_front_right,
        decode(e).tire_slip_ratio_rear_left == s.tire_slip_ratio_rear_left,
        decode(e).tire_slip_ratio_rear_right == s.tire_slip_ratio_rear_right,
        decode(e).wheel_rotation_speed_front_left == s.wheel_rotation_speed_front_left,
        decode(e).wheel_rotation_speed_front_right == s.wheel_rotation_speed_front_right,
        decode(e).wheel_rotation_speed_rear_left == s.wheel_rotation_speed_rear_left,
        decode(e).wheel_rotation_speed_rear_right == s.wheel_rotation_speed_rear_right,
        decode(e).wheel_on_rumble_strip_front_left == s.wheel_on_rumble_strip_front_left,
        decode(e).wheel_on_rumble_strip_front_right == s.wheel_on_rumble_strip_front_right,
        decode(e).wheel_on_rumble_strip_rear_left == s.wheel_on_rumble_strip_rear_left,
        decode(e).wheel_on_rumble_strip_rear_right == s.wheel_on_rumble_strip_rear_right,
{
    lemma_spelled();
}

/// A datagram that holds the group at offset 132 decodes to the group's fields
/// of `s`.
proof fn lemma_read_tires(e: Seq<u8>, b: Seq<u8>, s: TelemetryData)
    requires
        b.len() == 132,
        starts_with(e, put_tires(b, s)),
    ensures
        decode(e).wheel_in_puddle_depth_front_left == s.wheel_in_puddle_depth_front_left,
        decode(e).wheel_in_puddle_depth_front_right == s.wheel_in_puddle_depth_front_right,
        decode(e).wheel_in_puddle_depth_rear_left == s.wheel_in_puddle_depth_rear_left,
        decode(e).wheel_in_puddle_depth_rear_right == s.wheel_in_puddle_depth_rear_right,
        decode(e).surface_rumble_front_left == s.surface_rumble_front_left,
        decode(e).surface_rumble_front_right == s.surface_rumble_front_right,
        decode(e).surface_rumble_rear_left == s.surface_rumble_rear_left,
        decode(e).surface_rumble_rear_right == s.surface_rumble_rear_right,
        decode(e).trire_slip_angle_front_left == s.trire_slip_angle_front_left,
        decode(e).trire_slip_angle_front_right == s.trire_slip_angle_front_right,
        decode(e).trire_slip_angle_rear_left == s.trire_slip_angle_rear_left,
        decode(e).trire_slip_angle_rear_right == s.trire_slip_angle_rear_right,
        decode(e).tire_combined_slip_front_left == s.tire_combined_slip_front_left,
        decode(e).tire_combined_slip_front_right == s.tire_combined_slip_front_right,
        decode(e).tire_combined_slip_rear_left == s.tire_combined_slip_rear_left,
        decode(e).tire_combined_slip_rear_right == s.tire_combined_slip_rear_right,
        decode(e).suspension_travel_meters_front_left == s.suspension_travel_meters_front_left,
        decode(e).suspension_travel_meters_front_right == s.suspension_travel_meters_front_right,
        decode(e).suspension_travel_meters_rear_left == s.suspension_travel_meters_rear_left,
        decode(e).suspension_travel_meters_rear_right == s.suspension_travel_meters_rear_right,
{
    lemma_spelled();
}

/// A datagram that holds the group at offset 212 decodes to the group's fields
/// of `s`.
proof fn lemma_read_car(e: Seq<u8>, b: Seq<u8>, s: TelemetryData)
    requires
        b.len() == 212,
        starts_with(e, put_car(b, s)),
    ensures
        decode(e).car_ordinal == s.car_ordinal,
        decode(e).car_class == s.car_class,
        decode(e).car_performance_index == s.car_performance_index,
        decode(e).drivetrain_type == s.drivetrain_type,
        decode(e).num_cylinders == s.num_cylinders,
{
    lemma_spelled();
}

/// A datagram that holds the group at offset 244 decodes to the group's fields
/// of `s`.
proof fn lemma_read_world(e: Seq<u8>, b: Seq<u8>, s: TelemetryData)
    requires
        b.len() == 244,
        starts_with(e, put_world(b, s)),
    ensures
        decode(e).position_x == s.position_x,
        decode(e).position_y == s.position_y,
        decode(e).position_z == s.position_z,
        decode(e).speed == s.speed,
        decode(e).power == s.power,
        decode(e).torque == s.torque,
        decode(e).tire_temp_front_left == s.tire_temp_front_left,
        decode(e).tire_temp_front_right == s.tire_temp_front_right,
        decode(e).tire_temp_rear_left == s.tire_temp_rear_left,
        decode(e).tire_temp_rear_right == s.tire_temp_rear_right,
        decode(e).boost == s.boost,
        decode(e).fuel == s.fuel,
        decode(e).distance_traveled == s.distance_traveled,
        decode(e).best_lap == s.best_lap,
        decode(e).last_lap == s.last_lap,
        decode(e).current_lap == s.current_lap,
        decode(e).current_race_time == s.current_race_time,
{
    lemma_spelled();
}

/// A datagram that holds the group at offset 312 decodes to the group's fields
/// of `s`.
proof fn lemma_read_driver(e: Seq<u8>, b: Seq<u8>, s: TelemetryData)
    requires
        b.len() == 312,
        starts_with(e, put_driver(b, s)),
    ensures
        decode(e).lap_number == s.lap_number,
        decode(e).race_position == s.race_position,
        decode(e).accel == s.accel,
        decode(e).brake == s.brake,
        decode(e).clutch == s.clutch,
        decode(e).hand_brake == s.hand_brake,
        decode(e).gear == s.gear,
        decode(e).steer == s.steer,
        decode(e).normalized_driving_line == s.normalized_driving_line,
        decode(e).normalized_ai_brake_difference == s.normalized_ai_brake_difference,
{
    lemma_spelled();
}

/// Decoding the datagram that spells a snapshot gives the snapshot back,
/// every field bit for bit.
pub proof fn lemma_decode_encode(s: TelemetryData)
    ensures
        encode(s).len() == MESSAGE_SIZE,
        decode(encode(s)) == s,
{
    let e = encode(s);
    let b0 = Seq::<u8>::empty();
    let b1 = put_session(b0, s);
    let b2 = put_motion(b1, s);
    let b3 = put_wheels(b2, s);
    let b4 = put_tires(b3, s);
    let b5 = put_car(b4, s);
    let b6 = put_reserved(b5);
    let b7 = put_world(b6, s);
    lemma_put_session(b0, s);
    lemma_put_motion(b1, s);
    lemma_put_wheels(b2, s);
    lemma_put_tires(b3, s);
    lemma_put_car(b4, s);
    lemma_put_reserved(b5);
    lemma_put_world(b6, s);
    lemma_put_driver(b7, s);
    assert(starts_with(e, b7));
    assert(starts_with(e, b6));
    assert(starts_with(e, b5));
    assert(starts_with(e, b4));
    assert(starts_with(e, b3));
    assert(starts_with(e, b2));
    assert(starts_with(e, b1));
    lemma_read_session(e, b0, s);
    lemma_read_motion(e, b1, s);
    lemma_read_wheels(e, b2, s);
    lemma_read_tires(e, b3, s);
    lemma_read_car(e, b4, s);
    lemma_read_world(e, b6, s);
    lemma_read_driver(e, b7, s);
}

/// Spelling what was read gives the bytes back, and adjacent spans of one
/// buffer join into one span.
proof fn lemma_spans(c: Seq<u8>)
    ensures
        forall|q: Seq<u8>| q.len() == 4 ==> #[trigger] u32_bytes(u32_le(q)) == q,
        forall|q: Seq<u8>| q.len() == 2 ==> #[trigger] u16_bytes(u16_le(q)) == q,
        forall|x: int, y: int, z: int|
            0 <= x <= y <= z <= c.len() ==> #[trigger] (c.subrange(x, y) + c.subrange(y, z))
                == c.subrange(x, z),
        forall|x: int| 0 <= x < c.len() ==> #[trigger] seq![c[x]] == c.subrange(x, x + 1),
{
    assert forall|q: Seq<u8>| q.len() == 4 implies #[trigger] u32_bytes(u32_le(q)) == q by {
        lemma_u32_bytes_of_le(q);
    }
    assert forall|q: Seq<u8>| q.len() == 2 implies #[trigger] u16_bytes(u16_le(q)) == q by {
        lemma_u16_bytes_of_le(q);
    }
    assert forall|x: int, y: int, z: int| 0 <= x <= y <= z <= c.len() implies #[trigger] (
    c.subrange(x, y) + c.subrange(y, z)) == c.subrange(x, z) by {
        assert(c.subrange(x, y) + c.subrange(y, z) =~= c.subrange(x, z));
    }
    assert forall|x: int| 0 <= x < c.len() implies #[trigger] seq![c[x]] == c.subrange(
        x,
        x + 1,
    ) by {
        assert(seq![c[x]] =~= c.subrange(x, x + 1));
    }
}

/// Spelling the group's fields of the snapshot that `c` decodes to gives the
/// group's span of `c` back.
proof fn lemma_spell_session(c: Seq<u8>)
    requires
        c.len() >= MESSAGE_SIZE,
    ensures
        put_session(c.subrange(0, 0), decode(c)) == c.subrange(0, 20),
{
    lemma_spans(c);
}

/// Spelling the group's fields of the snapshot that `c` decodes to gives the
/// group's span of `c` back.
proof fn lemma_spell_motion(c: Seq<u8>)
    requires
        c.len() >= MESSAGE_SIZE,
    ensures
        put_motion(c.subrange(0, 20), decode(c)) == c.subrange(0, 68),
{
    lemma_spans(c);
}

/// Spelling the group's fields of the snapshot that `c` decodes to gives the
/// group's span of `c` back.
proof fn lemma_spell_wheels(c: Seq<u8>)
    requires
        c.len() >= MESSAGE_SIZE,
    ensures
        put_wheels(c.subrange(0, 68), decode(c)) == c.subrange(0, 132),
{
    lemma_spans(c);
}

/// Spelling the group's fields of the snapshot that `c` decodes to gives the
/// group's span of `c` back.
proof fn lemma_spell_tires(c: Seq<u8>)
    requires
        c.len() >= MESSAGE_SIZE,
    ensures
        put_tires(c.subrange(0, 132), decode(c)) == c.subrange(0, 212),
{
    lemma_spans(c);
}

/// Spelling the group's fields of the snapshot that `c` decodes to gives the
/// group's span of `c` back.
proof fn lemma_spell_car(c: Seq<u8>)
    requires
        c.len() >= MESSAGE_SIZE,
    ensures
        put_car(c.subrange(0, 212), decode(c)) == c.subrange(0, 232),
{
    lemma_spans(c);
}

/// Spelling the group's fields of the snapshot that `c` decodes to gives the
/// group's span of `c` back.
proof fn lemma_spell_world(c: Seq<u8>)
    requires
        c.len() >= MESSAGE_SIZE,
    ensures
        put_world(c.subrange(0, 244), decode(c)) == c.subrange(0, 312),
{
    lemma_spans(c);
}

/// Spelling the group's fields of the snapshot that `c` decodes to gives the
/// group's span of `c` back.
proof fn lemma_spell_driver(c: Seq<u8>)
    requires
        c.len() >= MESSAGE_SIZE,
    ensures
        put_driver(c.subrange(0, 312), decode(c)) == c.subrange(0, 323),
{
    lemma_spans(c);
}

/// Spelling the snapshot that a datagram decodes to gives the datagram back,
/// but for the reserved span, which comes back as zeros, and for what follows
/// the first [`MESSAGE_SIZE`] bytes, which is dropped: no other byte is lost.
pub proof fn lemma_encode_decode(b: Seq<u8>)
    requires
        b.len() >= MESSAGE_SIZE,
    ensures
        encode(decode(b)) == canonical(b),
{
    let c = canonical(b);
    assert(c.len() == MESSAGE_SIZE);
    assert(decode(c) == decode(b)) by {
        lemma_reserved_span_is_inert(b, c);
    }
    lemma_spell_session(c);
    lemma_spell_motion(c);
    lemma_spell_wheels(c);
    lemma_spell_tires(c);
    lemma_spell_car(c);
    assert(put_reserved(c.subrange(0, 232)) =~= c.subrange(0, 244));
    lemma_spell_world(c);
    lemma_spell_driver(c);
    assert(c.subrange(0, MESSAGE_SIZE as int) =~= c);
}

} // verus!
