//! Decisions of the event loop: which discovered devices get their event
//! source registered, and which advertisement payloads go to the decoder,
//! tagged with which label.
use vstd::prelude::*;
use crate::address::{address_key, DeviceAddress};
use crate::labels::DeviceLabelMap;

verus! {

/// Top 32 bits of the service UUID that marks this sensor family's payload.
pub const SENSOR_UUID_HEADER: u32 = 0x0000181a;

/// The first 32-bit field of a 128-bit UUID: its top 32 bits.
pub open spec fn uuid_header(uuid: u128) -> u32 {
    (uuid >> 96u128) as u32
}

/// An event of the Bluetooth adapter's discovery stream.
#[derive(Clone, Copy, Debug)]
pub enum AdapterEvent {
    DeviceAdded(DeviceAddress),
    DeviceRemoved(DeviceAddress),
    PropertyChanged,
}

/// A property change reported by a device's event source.
#[derive(Clone, Debug)]
pub enum DeviceChange {
    /// New service data: `(service UUID, payload)` entries.
    ServiceData(Vec<(u128, Vec<u8>)>),
    /// Any other property.
    Other,
}

/// What the loop does in answer to an adapter event.
#[derive(Clone, Debug)]
pub enum AdapterAction {
    /// Subscribe to the device's events; tag them with `source` from now on.
    Register { source: usize, address: DeviceAddress, room: String },
    /// A device without a label was found: report it, nothing more.
    Found { address: DeviceAddress },
    /// A device was removed: report it (with its label, if any), nothing more.
    Removed { address: DeviceAddress, room: Option<String> },
    /// Nothing to do.
    Ignore,
}

/// One payload to decode, with the label of the device that sent it.
#[derive(Clone, Debug)]
pub struct SampleJob {
    pub payload: Vec<u8>,
    pub room: String,
}

/// The state of the loop: the label table and, for each registered device
/// source, in order of registration, the label it was registered with.
#[derive(Debug)]
pub struct Driver {
    labels: DeviceLabelMap,
    rooms: Vec<String>,
}

/// The registered sources after one adapter event. Only the discovery of a
/// labelled device adds one; nothing ever removes one.
pub open spec fn sources_after(
    labels: Map<u64, Seq<char>>,
    sources: Seq<Seq<char>>,
    e: AdapterEvent,
) -> Seq<Seq<char>> {
    match e {
        AdapterEvent::DeviceAdded(a) => {
            let k = address_key(a.octets@) as u64;
            if labels.contains_key(k) {
                sources.push(labels[k])
            } else {
                sources
            }
        },
        _ => sources,
    }
}

/// The registered sources after a run of adapter events.
pub open spec fn sources_after_all(
    labels: Map<u64, Seq<char>>,
    sources: Seq<Seq<char>>,
    es: Seq<AdapterEvent>,
) -> Seq<Seq<char>>
    decreases es.len(),
{
    if es.len() == 0 {
        sources
    } else {
        sources_after(labels, sources_after_all(labels, sources, es.drop_last()), es.last())
    }
}

/// `r` is the action owed for event `e`, with `n` sources registered before.
pub open spec fn is_adapter_action(
    labels: Map<u64, Seq<char>>,
    n: nat,
    e: AdapterEvent,
    r: AdapterAction,
) -> bool {
    match e {
        AdapterEvent::DeviceAdded(a) => {
            let k = address_key(a.octets@) as u64;
            if labels.contains_key(k) {
                r matches AdapterAction::Register { source, address, room } && source == n
                    && address == a && room@ == labels[k]
            } else {
                r matches AdapterAction::Found { address } && address == a
            }
        },
        AdapterEvent::DeviceRemoved(a) => {
            let k = address_key(a.octets@) as u64;
            r matches AdapterAction::Removed { address, room } && address == a && (room is Some
                <==> labels.contains_key(k)) && (room matches Some(l) ==> l@ == labels[k])
        },
        AdapterEvent::PropertyChanged => r is Ignore,
    }
}

/// The payloads of the entries whose UUID marks this sensor family, in order.
pub open spec fn sensor_payloads(entries: Seq<(u128, Vec<u8>)>) -> Seq<Seq<u8>>
    decreases entries.len(),
{
    if entries.len() == 0 {
        Seq::empty()
    } else {
        let prev = sensor_payloads(entries.drop_last());
        if uuid_header(entries.last().0) == SENSOR_UUID_HEADER {
            prev.push(entries.last().1@)
        } else {
            prev
        }
    }
}

/// The service-data entries of a device change.
pub open spec fn change_entries(c: DeviceChange) -> Seq<(u128, Vec<u8>)> {
    match c {
        DeviceChange::ServiceData(v) => v@,
        DeviceChange::Other => Seq::empty(),
    }
}

/// The `(payload, label)` pairs to decode for a change on source `source`:
/// none for a source that was never registered.
pub open spec fn routed_jobs(
    sources: Seq<Seq<char>>,
    source: int,
    entries: Seq<(u128, Vec<u8>)>,
) -> Seq<(Seq<u8>, Seq<char>)> {
    if 0 <= source < sources.len() {
        sensor_payloads(entries).map_values(|p: Seq<u8>| (p, sources[source]))
    } else {
        Seq::empty()
    }
}

/// The `(payload, label)` pairs of a list of jobs.
pub open spec fn jobs_view(jobs: Seq<SampleJob>) -> Seq<(Seq<u8>, Seq<char>)> {
    jobs.map_values(|j: SampleJob| (j.payload@, j.room@))
}

/// The top 32 bits of a UUID.
pub fn header_of(uuid: u128) -> (r: u32)
    ensures
        r == uuid_header(uuid),
{
    (uuid >> 96u128) as u32
}

/// The payloads of the entries whose UUID header is `SENSOR_UUID_HEADER`,
/// in order; all other entries are left out.
pub fn select_sensor_payloads(entries: &Vec<(u128, Vec<u8>)>) -> (r: Vec<Vec<u8>>)
    ensures
        r.len() == sensor_payloads(entries@).len(),
        forall|k: int| 0 <= k < r.len() ==> #[trigger] r[k]@ == sensor_payloads(entries@)[k],
{
    let mut out: Vec<Vec<u8>> = Vec::new();
    let mut i: usize = 0;
    while i < entries.len()
        invariant
            i <= entries.len(),
            out.len() == sensor_payloads(entries@.take(i as int)).len(),
            forall|k: int|
                0 <= k < out.len() ==> #[trigger] out[k]@ == sensor_payloads(
                    entries@.take(i as int),
                )[k],
        decreases entries.len() - i,
    {
        assert(entries@.take(i as int + 1).drop_last() =~= entries@.take(i as int));
        let (uuid, payload) = &entries[i];
        if header_of(*uuid) == SENSOR_UUID_HEADER {
            out.push(payload.clone());
        }
        i = i + 1;
    }
    assert(entries@.take(i as int) =~= entries@);
    out
}

impl Driver {
    /// A loop over the given label table, with no source registered yet.
    pub fn new(labels: DeviceLabelMap) -> (r: Driver)
        ensures
            r.labels() == labels@,
            r.sources() == Seq::<Seq<char>>::empty(),
    {
        let r = Driver { labels, rooms: Vec::new() };
        assert(r.sources() =~= Seq::<Seq<char>>::empty());
        r
    }

    /// The label table.
    pub closed spec fn labels(&self) -> Map<u64, Seq<char>> {
        self.labels@
    }

    /// The label of each registered source, indexed by source number.
    pub closed spec fn sources(&self) -> Seq<Seq<char>> {
        self.rooms@.map_values(|s: String| s@)
    }

    /// Number of registered sources.
    pub fn source_count(&self) -> (r: usize)
        ensures
            r == self.sources().len(),
    {
        self.rooms.len()
    }

    /// Answers an adapter event. The discovery of a labelled device registers
    /// a new source, numbered after those before it, with the device's label;
    /// every other event leaves the sources as they are.
    pub fn handle_adapter_evt(&mut self, event: AdapterEvent) -> (r: AdapterAction)
        ensures
            final(self).labels() == old(self).labels(),
            final(self).sources() == sources_after(old(self).labels(), old(self).sources(), event),
            is_adapter_action(old(self).labels(), old(self).sources().len(), event, r),
    {
        match event {
            AdapterEvent::DeviceAdded(a) => {
                let found = match self.labels.get(&a) {
                    Some(l) => Some(l.clone()),
                    None => None,
                };
                match found {
                    Some(room) => {
                        let source = self.rooms.len();
                        self.rooms.push(room.clone());
                        assert(self.sources() =~= old(self).sources().push(room@));
                        AdapterAction::Register { source, address: a, room }
                    },
                    None => AdapterAction::Found { address: a },
                }
            },
            AdapterEvent::DeviceRemoved(a) => {
                let room = match self.labels.get(&a) {
                    Some(l) => Some(l.clone()),
                    None => None,
                };
                AdapterAction::Removed { address: a, room }
            },
            AdapterEvent::PropertyChanged => AdapterAction::Ignore,
        }
    }

    /// Answers a property change on registered source `source`: one job per
    /// service-data entry of this sensor family, in order, each with the
    /// source's label. Other properties, other UUIDs and unknown sources give
    /// nothing.
    pub fn handle_dev_changed_prop_evt(&self, source: usize, change: &DeviceChange) -> (r: Vec<
        SampleJob,
    >)
        ensures
            jobs_view(r@) == routed_jobs(self.sources(), source as int, change_entries(*change)),
    {
        let mut jobs: Vec<SampleJob> = Vec::new();
        if source >= self.rooms.len() {
            assert(jobs_view(jobs@) =~= Seq::<(Seq<u8>, Seq<char>)>::empty());
            return jobs;
        }
        let payloads = match change {
            DeviceChange::ServiceData(entries) => select_sensor_payloads(entries),
            DeviceChange::Other => Vec::new(),
        };
        let ghost sp = sensor_payloads(change_entries(*change));
        proof {
            if change is Other {
                assert(change_entries(*change) =~= Seq::<(u128, Vec<u8>)>::empty());
            }
        }
        let room = &self.rooms[source];
        let mut i: usize = 0;
        while i < payloads.len()
            invariant
                i <= payloads.len(),
                payloads.len() == sp.len(),
                forall|k: int| 0 <= k < payloads.len() ==> #[trigger] payloads[k]@ == sp[k],
                (source as int) < self.sources().len(),
                room@ == self.sources()[source as int],
                jobs_view(jobs@) == sp.take(i as int).map_values(
                    |p: Seq<u8>| (p, self.sources()[source as int]),
                ),
            decreases payloads.len() - i,
        {
            let ghost lbl = self.sources()[source as int];
            let ghost before = jobs_view(jobs@);
            let job = SampleJob { payload: payloads[i].clone(), room: room.clone() };
            assert(job.payload@ == sp[i as int] && job.room@ == lbl);
            jobs.push(job);
            assert(jobs_view(jobs@) =~= before.push((sp[i as int], lbl)));
            assert(sp.take(i as int + 1).map_values(|p: Seq<u8>| (p, lbl)) =~= sp.take(
                i as int,
            ).map_values(|p: Seq<u8>| (p, lbl)).push((sp[i as int], lbl)));
            i = i + 1;
        }
        assert(sp.take(i as int) =~= sp);
        jobs
    }
}

/// Runs of adapter events only ever append sources: every source registered
/// before keeps its number and its label.
pub proof fn lemma_sources_only_grow(
    labels: Map<u64, Seq<char>>,
    sources: Seq<Seq<char>>,
    es: Seq<AdapterEvent>,
)
    ensures
        sources_after_all(labels, sources, es).len() >= sources.len(),
        forall|i: int|
            0 <= i < sources.len() ==> #[trigger] sources_after_all(labels, sources, es)[i]
                == sources[i],
    decreases es.len(),
{
    if es.len() > 0 {
        lemma_sources_only_grow(labels, sources, es.drop_last());
    }
}

/// A source registered in the middle of the stream is routed at once, and
/// stays routed with its label whatever adapter events follow: a change it
/// reports yields the device's sensor payloads, each with the device's label.
pub proof fn lemma_registered_source_visible(
    labels: Map<u64, Seq<char>>,
    sources: Seq<Seq<char>>,
    addr: DeviceAddress,
    later: Seq<AdapterEvent>,
    entries: Seq<(u128, Vec<u8>)>,
)
    requires
        labels.contains_key(address_key(addr.octets@) as u64),
    ensures
        ({
            let s1 = sources_after(labels, sources, AdapterEvent::DeviceAdded(addr));
            let s2 = sources_after_all(labels, s1, later);
            &&& s1.len() == sources.len() + 1
            &&& routed_jobs(s2, sources.len() as int, entries) == sensor_payloads(
                entries,
            ).map_values(|p: Seq<u8>| (p, labels[address_key(addr.octets@) as u64]))
        }),
{
    let s1 = sources_after(labels, sources, AdapterEvent::DeviceAdded(addr));
    lemma_sources_only_grow(labels, s1, later);
    let s2 = sources_after_all(labels, s1, later);
    assert(s2[sources.len() as int] == s1[sources.len() as int]);
}

/// The discovery of a device without a label registers nothing, so no change
/// can ever be routed to a source for it.
pub proof fn lemma_unknown_device_ignored(
    labels: Map<u64, Seq<char>>,
    sources: Seq<Seq<char>>,
    addr: DeviceAddress,
    entries: Seq<(u128, Vec<u8>)>,
)
    requires
        !labels.contains_key(address_key(addr.octets@) as u64),
    ensures
        sources_after(labels, sources, AdapterEvent::DeviceAdded(addr)) == sources,
        routed_jobs(
            sources_after(labels, sources, AdapterEvent::DeviceAdded(addr)),
            sources.len() as int,
            entries,
        ) == Seq::<(Seq<u8>, Seq<char>)>::empty(),
{
}

/// Every payload handed to the decoder comes from an entry whose UUID header
/// is `SENSOR_UUID_HEADER`; entries with any other header are never selected.
pub proof fn lemma_only_sensor_entries_decoded(entries: Seq<(u128, Vec<u8>)>)
    ensures
        forall|k: int|
            0 <= k < sensor_payloads(entries).len() ==> exists|j: int|
                0 <= j < entries.len() && uuid_header(#[trigger] entries[j].0)
                    == SENSOR_UUID_HEADER && entries[j].1@ == #[trigger] sensor_payloads(
                    entries,
                )[k],
        (forall|j: int| 0 <= j < entries.len() ==> uuid_header(#[trigger] entries[j].0)
            != SENSOR_UUID_HEADER) ==> sensor_payloads(entries).len() == 0,
    decreases entries.len(),
{
    if entries.len() > 0 {
        let prev = entries.drop_last();
        lemma_only_sensor_entries_decoded(prev);
        let sp = sensor_payloads(entries);
        assert forall|k: int| 0 <= k < sp.len() implies exists|j: int|
            0 <= j < entries.len() && uuid_header(#[trigger] entries[j].0) == SENSOR_UUID_HEADER
                && entries[j].1@ == #[trigger] sp[k] by {
            if k < sensor_payloads(prev).len() {
                let j = choose|j: int|
                    0 <= j < prev.len() && uuid_header(#[trigger] prev[j].0) == SENSOR_UUID_HEADER
                        && prev[j].1@ == #[trigger] sensor_payloads(prev)[k];
                assert(entries[j] == prev[j]);
            } else {
                assert(entries[entries.len() - 1] == entries.last());
            }
        }
        if forall|j: int| 0 <= j < entries.len() ==> uuid_header(#[trigger] entries[j].0)
            != SENSOR_UUID_HEADER {
            assert forall|j: int| 0 <= j < prev.len() implies uuid_header(#[trigger] prev[j].0)
                != SENSOR_UUID_HEADER by {
                assert(prev[j] == entries[j]);
            }
            assert(uuid_header(entries[entries.len() - 1].0) != SENSOR_UUID_HEADER);
        }
    }
}

} // verus!
