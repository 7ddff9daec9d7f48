use gt_telemetry::telemetry::{DecodeError, GTData, RECORD_LEN};

fn put(b: &mut [u8], off: usize, v: &[u8]) {
    b[off..off + v.len()].copy_from_slice(v);
}

fn sample() -> Vec<u8> {
    let mut b = vec![0u8; RECORD_LEN];
    put(&mut b, 0x70, &1234i32.to_le_bytes());
    put(&mut b, 0x74, &3i16.to_le_bytes());
    put(&mut b, 0x76, &5i16.to_le_bytes());
    put(&mut b, 0x78, &(-1i32).to_le_bytes());
    put(&mut b, 0x7C, &95000i32.to_le_bytes());
    put(&mut b, 0x80, &61999i32.to_le_bytes());
    put(&mut b, 0x84, &2i16.to_le_bytes());
    put(&mut b, 0x86, &16i16.to_le_bytes());
    put(&mut b, 0x88, &7000u16.to_le_bytes());
    put(&mut b, 0x8A, &8000u16.to_le_bytes());
    put(&mut b, 0x8C, &310i16.to_le_bytes());
    put(&mut b, 0x8E, &3u16.to_le_bytes());
    put(&mut b, 0x90, &0x37u16.to_le_bytes());
    put(&mut b, 0x124, &3400i32.to_le_bytes());
    put(&mut b, 0x04, &1.5f32.to_le_bytes());
    put(&mut b, 0x3C, &6500.0f32.to_le_bytes());
    put(&mut b, 0x4C, &50.0f32.to_le_bytes());
    put(&mut b, 0xB4, &0.33f32.to_le_bytes());
    put(&mut b, 0x120, &0.7f32.to_le_bytes());
    b
}

#[test]
fn decodes_fixed_offsets() {
    let r = GTData::new(&sample());
    assert_eq!(r.package_id, 1234);
    assert_eq!(r.current_lap, 3);
    assert_eq!(r.total_laps, 5);
    assert_eq!(r.best_lap, -1);
    assert_eq!(r.last_lap, 95000);
    assert_eq!(r.current_position, 2);
    assert_eq!(r.total_positions, 16);
    assert_eq!(r.rpm_rev_warning, 7000);
    assert_eq!(r.rpm_rev_limiter, 8000);
    assert_eq!(r.estimated_top_speed, 310);
    assert_eq!(r.car_id, 3400);
    assert_eq!(f32::from_bits(r.position_x), 1.5);
    assert_eq!(f32::from_bits(r.rpm), 6500.0);
    assert_eq!(f32::from_bits(r.speed_raw), 50.0);
    assert_eq!(f32::from_bits(r.tyre_diameter_fl), 0.33);
    assert_eq!(f32::from_bits(r.gear_8), 0.7);
    assert_eq!(r.gear_word, 0x37);
}

#[test]
fn time_on_track_drops_sub_second_part() {
    assert_eq!(GTData::new(&sample()).time_on_track_secs, 61);
}

#[test]
fn gear_word_unpacks_low_and_high_nibble() {
    let mut b = sample();
    put(&mut b, 0x90, &0x0037u16.to_le_bytes());
    let r = GTData::new(&b);
    assert_eq!(r.current_gear, 7);
    assert_eq!(r.suggested_gear, 3);
}

#[test]
fn status_word_gives_pause_and_race_flags() {
    let mut b = sample();
    for (w, paused, racing) in [(0u16, false, false), (1, false, true), (2, true, false), (3, true, true), (4, false, false)] {
        put(&mut b, 0x8E, &w.to_le_bytes());
        let r = GTData::new(&b);
        assert_eq!((r.is_paused, r.in_race), (paused, racing));
    }
}

#[test]
fn stationary_car_reports_no_slip() {
    let mut b = sample();
    put(&mut b, 0xA4, &120.0f32.to_le_bytes());
    put(&mut b, 0xB0, &(-80.0f32).to_le_bytes());
    for speed in [0.0f32, -0.0, -3.0, f32::NAN] {
        put(&mut b, 0x4C, &speed.to_le_bytes());
        assert!(!GTData::new(&b).car_moving);
    }
    for speed in [50.0f32, f32::MIN_POSITIVE, f32::from_bits(1), f32::INFINITY] {
        put(&mut b, 0x4C, &speed.to_le_bytes());
        assert!(GTData::new(&b).car_moving);
    }
}

#[test]
fn decoding_is_deterministic() {
    let a = sample();
    let mut b = a.clone();
    b.extend_from_slice(&[9, 9, 9]);
    assert_eq!(GTData::new(&a), GTData::new(&a));
    assert_eq!(GTData::new(&a), GTData::new(&b));
}

#[test]
fn short_buffer_is_rejected() {
    let b = sample();
    assert_eq!(GTData::decode(&b[..RECORD_LEN - 1]), Err(DecodeError::TooShort { len: RECORD_LEN - 1 }));
    assert_eq!(GTData::decode(&[]), Err(DecodeError::TooShort { len: 0 }));
    assert_eq!(GTData::decode(&b), Ok(GTData::new(&b)));
}
