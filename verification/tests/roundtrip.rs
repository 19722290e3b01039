use forza_telemetry::forza::{parse, TelemetryData, MESSAGE_SIZE};
use forza_telemetry::utils::{
    read_binary32, read_i32, read_i8, read_u16, read_u32, read_u8, write_binary32, write_i32,
    write_i8, write_u16, write_u32, write_u8, Binary32,
};

fn float(x: f32) -> Binary32 {
    Binary32 { bits: x.to_bits() }
}

fn sample() -> TelemetryData {
    let zero = parse(&[0u8; MESSAGE_SIZE]).unwrap();
    TelemetryData {
        is_race_on: 1,
        timestamp_ms: 4_294_967_295,
        engine_max_rpm: float(8500.0),
        engine_idle_rpm: float(900.0),
        current_engine_rpm: float(6123.5),
        acceleration_x: float(-0.25),
        velocity_z: float(61.0),
        yaw: float(-3.125),
        normalized_suspension_travel_front_left: float(0.5),
        tire_slip_ratio_rear_right: float(1.5),
        wheel_on_rumble_strip_rear_left: 1,
        trire_slip_angle_front_right: float(-1.0e-3),
        suspension_travel_meters_rear_right: float(0.0625),
        car_ordinal: 2_147_483_647,
        car_class: 7,
        car_performance_index: 999,
        drivetrain_type: 2,
        num_cylinders: -2_147_483_648,
        position_x: float(1234.5),
        position_y: float(-12.0),
        position_z: float(f32::MAX),
        speed: float(27.5),
        power: float(250_000.0),
        torque: float(f32::MIN_POSITIVE),
        tire_temp_rear_right: float(181.0),
        boost: float(f32::INFINITY),
        fuel: float(-0.0),
        current_race_time: Binary32 { bits: 0xffc0_0001 },
        lap_number: 65_535,
        race_position: 12,
        accel: 255,
        brake: 1,
        clutch: 128,
        hand_brake: 0,
        gear: 6,
        steer: -128,
        normalized_driving_line: 127,
        normalized_ai_brake_difference: -1,
        ..zero
    }
}

#[test]
fn encoded_snapshot_has_message_size() {
    assert_eq!(sample().to_bytes().len(), MESSAGE_SIZE);
    assert_eq!(parse(&[0u8; MESSAGE_SIZE]).unwrap().to_bytes().len(), 323);
}

#[test]
fn decode_after_encode_gives_the_snapshot_back() {
    let s = sample();
    assert_eq!(parse(&s.to_bytes()), Ok(s));
    let zero = parse(&[0u8; MESSAGE_SIZE]).unwrap();
    assert_eq!(parse(&zero.to_bytes()), Ok(zero));
}

#[test]
fn round_trip_keeps_float_values() {
    let s = sample();
    let d = parse(&s.to_bytes()).unwrap();
    assert_eq!(f32::from_bits(d.speed.bits), 27.5);
    assert_eq!(f32::from_bits(d.engine_max_rpm.bits), 8500.0);
    assert_eq!(f32::from_bits(d.yaw.bits), -3.125);
    assert_eq!(f32::from_bits(d.position_z.bits), f32::MAX);
    assert_eq!(f32::from_bits(d.boost.bits), f32::INFINITY);
    assert!(f32::from_bits(d.fuel.bits).is_sign_negative());
    assert!(f32::from_bits(d.current_race_time.bits).is_nan());
    assert_eq!(d.current_race_time.bits, 0xffc0_0001);
}

#[test]
fn encode_after_decode_gives_the_field_bytes_back() {
    let mut bytes = Vec::with_capacity(MESSAGE_SIZE + 5);
    for i in 0..MESSAGE_SIZE + 5 {
        bytes.push((i * 11 + 5) as u8);
    }
    let out = parse(&bytes).unwrap().to_bytes();
    assert_eq!(out.len(), MESSAGE_SIZE);
    assert_eq!(&out[..232], &bytes[..232]);
    assert_eq!(&out[232..244], &[0u8; 12][..]);
    assert_eq!(&out[244..], &bytes[244..MESSAGE_SIZE]);
}

#[test]
fn encoder_writes_fields_at_their_offsets() {
    let out = sample().to_bytes();
    assert_eq!(&out[0..4], &1i32.to_le_bytes()[..]);
    assert_eq!(&out[4..8], &u32::MAX.to_le_bytes()[..]);
    assert_eq!(&out[8..12], &8500.0f32.to_le_bytes()[..]);
    assert_eq!(&out[212..216], &i32::MAX.to_le_bytes()[..]);
    assert_eq!(&out[228..232], &i32::MIN.to_le_bytes()[..]);
    assert_eq!(&out[232..244], &[0u8; 12][..]);
    assert_eq!(&out[244..248], &1234.5f32.to_le_bytes()[..]);
    assert_eq!(&out[256..260], &27.5f32.to_le_bytes()[..]);
    assert_eq!(&out[312..314], &65_535u16.to_le_bytes()[..]);
    assert_eq!(out[314], 12);
    assert_eq!(out[319], 6);
    assert_eq!(out[320], 0x80);
    assert_eq!(out[321], 0x7f);
    assert_eq!(out[322], 0xff);
}

#[test]
fn writers_append_little_endian_bytes() {
    let mut out = vec![0xaau8];
    write_u8(&mut out, 0x01);
    write_i8(&mut out, -2);
    write_u16(&mut out, 0x1234);
    write_u32(&mut out, 0x89ab_cdef);
    write_i32(&mut out, -1234);
    write_binary32(&mut out, Binary32 { bits: 0x41dc_0000 });
    assert_eq!(
        out,
        vec![
            0xaa, 0x01, 0xfe, 0x34, 0x12, 0xef, 0xcd, 0xab, 0x89, 0x2e, 0xfb, 0xff, 0xff, 0x00,
            0x00, 0xdc, 0x41
        ]
    );
    assert_eq!(f32::from_le_bytes([0x00, 0x00, 0xdc, 0x41]), 27.5);
}

#[test]
fn writers_and_readers_are_inverse() {
    let mut x: u32 = 0x2545_f491;
    for _ in 0..500 {
        x ^= x << 13;
        x ^= x >> 17;
        x ^= x << 5;
        let mut out = Vec::new();
        write_u32(&mut out, x);
        write_i32(&mut out, x as i32);
        write_binary32(&mut out, Binary32 { bits: x });
        write_u16(&mut out, x as u16);
        write_u8(&mut out, x as u8);
        write_i8(&mut out, x as i8);
        assert_eq!(out.len(), 16);
        assert_eq!(&out[0..4], &x.to_le_bytes()[..]);
        assert_eq!(read_u32(&out, 0), Ok(x));
        assert_eq!(read_i32(&out, 4), Ok(x as i32));
        assert_eq!(read_binary32(&out, 8), Ok(Binary32 { bits: x }));
        assert_eq!(read_u16(&out, 12), Ok(x as u16));
        assert_eq!(read_u8(&out, 14), Ok(x as u8));
        assert_eq!(read_i8(&out, 15), Ok(x as i8));
    }
}
