//! What is written to the time-series sink for one sample, and whether
//! anything is written at all.
use vstd::prelude::*;
use crate::address::address_text;
use crate::payload::{is_decoded, DecodeError, Sample, Timestamp, PAYLOAD_LEN};

verus! {

/// One record for the sink: two tags (sensor address text, room) and four
/// numeric fields, in the sensor's integer units.
#[derive(Clone, Debug)]
pub struct WritePoint {
    pub time: Timestamp,
    pub sensor: String,
    pub room: String,
    pub temperature_centi: i16,
    pub humidity_centi: u16,
    pub battery_millivolts: u16,
    pub battery_level: i32,
}

/// `w` is the record built from sample `s`.
pub open spec fn is_point_of(w: WritePoint, s: Sample) -> bool {
    &&& w.time == s.timestamp
    &&& w.sensor@ == address_text(s.sensor_addr.octets@)
    &&& w.room@ == s.room@
    &&& w.temperature_centi == s.temperature_centi
    &&& w.humidity_centi == s.humidity_centi
    &&& w.battery_millivolts == s.battery_millivolts
    &&& w.battery_level as int == s.battery_level as int
}

/// What the write path does with a sample: nothing in a dry run, else write
/// the sample's record.
pub open spec fn write_planned(dry_run: bool, s: Sample, r: Option<WritePoint>) -> bool {
    if dry_run {
        r is None
    } else {
        r matches Some(w) && is_point_of(w, s)
    }
}

impl WritePoint {
    /// The record for a sample.
    pub fn from_sample(s: &Sample) -> (r: WritePoint)
        ensures
            is_point_of(r, *s),
    {
        WritePoint {
            time: s.timestamp,
            sensor: s.sensor_addr.to_text(),
            room: s.room.clone(),
            temperature_centi: s.temperature_centi,
            humidity_centi: s.humidity_centi,
            battery_millivolts: s.battery_millivolts,
            battery_level: s.battery_level as i32,
        }
    }
}

/// The record to write for a sample, or `None` in a dry run, where the sink
/// is never touched.
pub fn plan_write(s: &Sample, dry_run: bool) -> (r: Option<WritePoint>)
    ensures
        write_planned(dry_run, *s, r),
{
    if dry_run {
        None
    } else {
        Some(WritePoint::from_sample(s))
    }
}

/// Decodes one payload from the sensor labelled `room` and plans its write.
/// A payload that is not fifteen bytes long is an error; otherwise the plan
/// is that of `plan_write` for the decoded sample.
pub fn plan_sample(payload: &Vec<u8>, room: &String, dry_run: bool) -> (r: Result<
    (Sample, Option<WritePoint>),
    DecodeError,
>)
    ensures
        payload@.len() == PAYLOAD_LEN <==> r is Ok,
        r matches Ok((s, w)) ==> is_decoded(s, payload@, room@, s.timestamp) && write_planned(
            dry_run,
            s,
            w,
        ),
        r matches Err(DecodeError::MalformedPayload { len }) ==> len == payload.len(),
{
    match Sample::decode_now(payload, room) {
        Ok(s) => {
            let w = plan_write(&s, dry_run);
            Ok((s, w))
        },
        Err(e) => Err(e),
    }
}

/// A dry run writes nothing, whatever the samples are.
pub proof fn lemma_dry_run_writes_nothing(samples: Seq<Sample>, plans: Seq<Option<WritePoint>>)
    requires
        samples.len() == plans.len(),
        forall|i: int| 0 <= i < samples.len() ==> write_planned(true, #[trigger] samples[i], plans[i]),
    ensures
        forall|i: int| 0 <= i < plans.len() ==> #[trigger] plans[i] is None,
{
    assert forall|i: int| 0 <= i < plans.len() implies #[trigger] plans[i] is None by {
        assert(write_planned(true, samples[i], plans[i]));
    }
}

} // verus!
