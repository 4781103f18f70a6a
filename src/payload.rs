//! Decoding of the fixed 15-byte sensor advertisement payload.
use vstd::prelude::*;
use crate::address::DeviceAddress;

verus! {

/// Length in bytes of a sensor advertisement payload.
pub const PAYLOAD_LEN: usize = 15;

/// A UTC instant: whole seconds since the Unix epoch and the nanoseconds
/// past that second.
#[derive(Clone, Copy, Debug)]
pub struct Timestamp {
    pub secs: i64,
    pub nanos: u32,
}

/// A decoded measurement, in the sensor's own integer units.
#[derive(Clone, Debug)]
pub struct Sample {
    /// When the sample was decoded.
    pub timestamp: Timestamp,
    /// Address of the sensor that sent it.
    pub sensor_addr: DeviceAddress,
    /// Location label of the sensor.
    pub room: String,
    /// Temperature in hundredths of a degree Celsius.
    pub temperature_centi: i16,
    /// Relative humidity in hundredths of a percent.
    pub humidity_centi: u16,
    /// Battery voltage in millivolts.
    pub battery_millivolts: u16,
    /// Battery level in percent, as sent (0 to 255).
    pub battery_level: u8,
}

/// Why a payload could not be decoded.
#[derive(Clone, Copy, Debug, PartialEq, Eq)]
pub enum DecodeError {
    /// The payload does not have exactly fifteen bytes; `len` is what it had.
    MalformedPayload { len: usize },
}

/// Unsigned little-endian 16-bit value of two bytes.
pub open spec fn le_u16(lo: u8, hi: u8) -> int {
    lo as int + 256 * hi as int
}

/// Signed (two's complement) little-endian 16-bit value of two bytes.
pub open spec fn le_i16(lo: u8, hi: u8) -> int {
    if le_u16(lo, hi) < 0x8000 {
        le_u16(lo, hi)
    } else {
        le_u16(lo, hi) - 0x10000
    }
}

/// The sensor address carried by a payload: its first six bytes, reversed.
pub open spec fn payload_address(p: Seq<u8>) -> Seq<u8> {
    seq![p[5], p[4], p[3], p[2], p[1], p[0]]
}

/// `s` is the sample that payload `p` gives for `room`, decoded at `t`.
pub open spec fn is_decoded(s: Sample, p: Seq<u8>, room: Seq<char>, t: Timestamp) -> bool {
    &&& s.timestamp == t
    &&& s.sensor_addr.octets@ == payload_address(p)
    &&& s.room@ == room
    &&& s.temperature_centi as int == le_i16(p[6], p[7])
    &&& s.humidity_centi as int == le_u16(p[8], p[9])
    &&& s.battery_millivolts as int == le_u16(p[10], p[11])
    &&& s.battery_level == p[12]
}

/// Reads two bytes as an unsigned little-endian number.
fn read_u16_le(lo: u8, hi: u8) -> (r: u16)
    ensures
        r as int == le_u16(lo, hi),
{
    lo as u16 + (hi as u16) * 256
}

/// Reads two bytes as a signed little-endian number.
fn read_i16_le(lo: u8, hi: u8) -> (r: i16)
    ensures
        r as int == le_i16(lo, hi),
{
    let u = read_u16_le(lo, hi);
    if u < 0x8000 {
        u as i16
    } else {
        (u as i32 - 0x10000) as i16
    }
}

/// Relies on chrono::Utc::now for the current time. Nothing is assumed of
/// the value: it depends on the clock.
#[verifier::external_body]
fn utc_now() -> (r: Timestamp) {
    let now = chrono::Utc::now();
    Timestamp { secs: now.timestamp(), nanos: now.timestamp_subsec_nanos() }
}

impl Sample {
    /// Decodes a payload taken at `timestamp` from the sensor labelled `room`.
    /// Fails exactly when the payload is not fifteen bytes long.
    pub fn decode(payload: &Vec<u8>, room: &String, timestamp: Timestamp) -> (r: Result<
        Sample,
        DecodeError,
    >)
        ensures
            payload@.len() == PAYLOAD_LEN <==> r is Ok,
            r matches Ok(s) ==> is_decoded(s, payload@, room@, timestamp),
            r matches Err(DecodeError::MalformedPayload { len }) ==> len == payload.len(),
    {
        if payload.len() != PAYLOAD_LEN {
            return Err(DecodeError::MalformedPayload { len: payload.len() });
        }
        let p = payload;
        let octets: [u8; 6] = [p[5], p[4], p[3], p[2], p[1], p[0]];
        assert(octets@ =~= payload_address(p@));
        Ok(
            Sample {
                timestamp,
                sensor_addr: DeviceAddress::new(octets),
                room: room.clone(),
                temperature_centi: read_i16_le(p[6], p[7]),
                humidity_centi: read_u16_le(p[8], p[9]),
                battery_millivolts: read_u16_le(p[10], p[11]),
                battery_level: p[12],
            },
        )
    }

    /// Decodes a payload, stamping it with the current UTC time.
    pub fn decode_now(payload: &Vec<u8>, room: &String) -> (r: Result<Sample, DecodeError>)
        ensures
            payload@.len() == PAYLOAD_LEN <==> r is Ok,
            r matches Ok(s) ==> is_decoded(s, payload@, room@, s.timestamp),
            r matches Err(DecodeError::MalformedPayload { len }) ==> len == payload.len(),
    {
        Sample::decode(payload, room, utc_now())
    }
}

} // verus!
