use ble_weather::address::DeviceAddress;
use ble_weather::payload::{DecodeError, Sample, Timestamp};
use ble_weather::sink::{plan_sample, plan_write, WritePoint};

fn known_payload() -> Vec<u8> {
    vec![
        0x11, 0x22, 0x33, 0x44, 0x55, 0x66, // address, reversed
        0x56, 0x08, // 2134 -> 21.34 degrees
        0x88, 0x15, // 5512 -> 55.12 %
        0x21, 0x0C, // 3105 -> 3.105 V
        0x50, // 80 %
        0x07, 0x00, // reserved
    ]
}

fn at() -> Timestamp {
    Timestamp { secs: 1_700_000_000, nanos: 250 }
}

#[test]
fn decodes_known_fields() {
    let room = String::from("kitchen");
    let s = Sample::decode(&known_payload(), &room, at()).unwrap();
    assert_eq!(s.temperature_centi, 2134);
    assert_eq!(s.humidity_centi, 5512);
    assert_eq!(s.battery_millivolts, 3105);
    assert_eq!(s.battery_level, 80);
    assert_eq!(s.room, "kitchen");
    assert_eq!(s.timestamp.secs, 1_700_000_000);
    assert_eq!(s.timestamp.nanos, 250);
    assert_eq!(s.sensor_addr.octets, [0x66, 0x55, 0x44, 0x33, 0x22, 0x11]);
    assert_eq!(s.temperature_centi as f32 / 100.0, 21.34f32);
    assert_eq!(s.humidity_centi as f32 / 100.0, 55.12f32);
    assert_eq!(s.battery_millivolts as f32 / 1000.0, 3.105f32);
}

#[test]
fn decodes_negative_temperature() {
    let mut p = known_payload();
    p[6] = 0xDA;
    p[7] = 0xFD;
    let s = Sample::decode(&p, &String::from("cellar"), at()).unwrap();
    assert_eq!(s.temperature_centi, -550);
    assert_eq!(s.temperature_centi as f32 / 100.0, -5.5f32);
}

#[test]
fn decodes_extreme_values() {
    let mut p = known_payload();
    p[6] = 0x00;
    p[7] = 0x80;
    p[8] = 0xFF;
    p[9] = 0xFF;
    p[12] = 0xFF;
    let s = Sample::decode(&p, &String::from("attic"), at()).unwrap();
    assert_eq!(s.temperature_centi, -32768);
    assert_eq!(s.humidity_centi, 65535);
    assert_eq!(s.battery_level, 255);
}

#[test]
fn wrong_lengths_are_malformed() {
    let room = String::from("kitchen");
    for len in [0usize, 1, 6, 13, 14, 16, 20, 31] {
        let p = vec![0xABu8; len];
        match Sample::decode(&p, &room, at()) {
            Err(DecodeError::MalformedPayload { len: l }) => assert_eq!(l, len),
            Ok(_) => panic!("decoded a payload of {} bytes", len),
        }
    }
}

#[test]
fn address_bytes_are_reversed_in_text() {
    let mut p = known_payload();
    p[..6].copy_from_slice(&[0xAA, 0xBB, 0xCC, 0xDD, 0xEE, 0xFF]);
    let s = Sample::decode(&p, &String::from("hall"), at()).unwrap();
    assert_eq!(s.sensor_addr.to_text(), "FF:EE:DD:CC:BB:AA");
}

#[test]
fn address_text_pads_digits() {
    let a = DeviceAddress::new([0x00, 0x01, 0x0A, 0x10, 0x9F, 0xF0]);
    assert_eq!(a.to_text(), "00:01:0A:10:9F:F0");
}

#[test]
fn address_key_is_big_endian() {
    let a = DeviceAddress::new([0x01, 0x02, 0x03, 0x04, 0x05, 0x06]);
    assert_eq!(a.key(), 0x0102_0304_0506);
    let b = DeviceAddress::new([0xFF; 6]);
    assert_eq!(b.key(), 0xFFFF_FFFF_FFFF);
}

#[test]
fn write_point_copies_sample() {
    let s = Sample::decode(&known_payload(), &String::from("kitchen"), at()).unwrap();
    let w = WritePoint::from_sample(&s);
    assert_eq!(w.sensor, "66:55:44:33:22:11");
    assert_eq!(w.room, "kitchen");
    assert_eq!(w.temperature_centi, 2134);
    assert_eq!(w.humidity_centi, 5512);
    assert_eq!(w.battery_millivolts, 3105);
    assert_eq!(w.battery_level, 80);
    assert_eq!(w.time.secs, 1_700_000_000);
}

#[test]
fn dry_run_plans_no_write() {
    let room = String::from("kitchen");
    for level in [0u8, 50, 100] {
        let mut p = known_payload();
        p[12] = level;
        let s = Sample::decode(&p, &room, at()).unwrap();
        assert!(plan_write(&s, true).is_none());
        let (_, w) = plan_sample(&p, &room, true).unwrap();
        assert!(w.is_none());
    }
}

#[test]
fn live_run_plans_the_write() {
    let room = String::from("porch");
    let (s, w) = plan_sample(&known_payload(), &room, false).unwrap();
    let w = w.unwrap();
    assert_eq!(s.room, "porch");
    assert_eq!(w.room, "porch");
    assert_eq!(w.sensor, "66:55:44:33:22:11");
    assert_eq!(w.battery_level, 80);
}

#[test]
fn plan_sample_rejects_short_payload() {
    let r = plan_sample(&vec![1, 2, 3], &String::from("x"), false);
    assert!(matches!(r, Err(DecodeError::MalformedPayload { len: 3 })));
}
