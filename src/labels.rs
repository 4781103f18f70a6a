//! The read-only table from sensor address to location label, and the
//! reading of its two-column records.
use vstd::prelude::*;
use std::collections::HashMap;
use crate::address::{address_key, DeviceAddress};

verus! {

broadcast use vstd::std_specs::hash::group_hash_axioms;

#[verifier::external_type_specification]
#[verifier::external_body]
pub struct ExStringRecord(csv::StringRecord);

#[verifier::external_type_specification]
#[verifier::external_body]
pub struct ExCsvError(csv::Error);

/// The fields of a delimited record, in order.
pub uninterp spec fn record_fields(r: csv::StringRecord) -> Seq<Seq<char>>;

/// Relies on csv::StringRecord::get: field `i` of the record, or `None` when
/// the record has no field at that index.
#[verifier::external_body]
fn record_field(record: &csv::StringRecord, i: usize) -> (r: Option<String>)
    ensures
        r is Some <==> i < record_fields(*record).len(),
        r matches Some(f) ==> f@ == record_fields(*record)[i as int],
{
    record.get(i).map(str::to_owned)
}

/// Why the address-to-label table could not be built.
#[derive(Debug)]
pub enum ConfigError {
    /// The delimited input could not be read.
    Read(csv::Error),
    /// A record does not hold two fields.
    MissingFields,
    /// The first field of a record is not a device address; it is given.
    InvalidAddress(String),
}

/// Map from device address to location label.
#[derive(Debug)]
pub struct DeviceLabelMap {
    labels: HashMap<u64, String>,
}

impl View for DeviceLabelMap {
    type V = Map<u64, Seq<char>>;

    /// Labels keyed by `address_key` of the address.
    closed spec fn view(&self) -> Map<u64, Seq<char>> {
        self.labels@.map_values(|s: String| s@)
    }
}

/// The table that inserting `entries` in order gives, later entries replacing
/// earlier ones with the same address.
pub open spec fn labels_of(entries: Seq<(DeviceAddress, String)>) -> Map<u64, Seq<char>>
    decreases entries.len(),
{
    if entries.len() == 0 {
        Map::empty()
    } else {
        let last = entries.last();
        labels_of(entries.drop_last()).insert(address_key(last.0.octets@) as u64, last.1@)
    }
}

impl DeviceLabelMap {
    /// An empty table.
    pub fn new() -> (r: DeviceLabelMap)
        ensures
            r@ == Map::<u64, Seq<char>>::empty(),
    {
        let r = DeviceLabelMap { labels: HashMap::new() };
        assert(r@ =~= Map::<u64, Seq<char>>::empty());
        r
    }

    /// Sets the label of `addr`, replacing any earlier one.
    pub fn insert(&mut self, addr: DeviceAddress, label: String)
        ensures
            final(self)@ == old(self)@.insert(address_key(addr.octets@) as u64, label@),
    {
        let k = addr.key();
        self.labels.insert(k, label);
        assert(final(self)@ =~= old(self)@.insert(k, label@));
    }

    /// The label of `addr`, if it has one.
    pub fn get(&self, addr: &DeviceAddress) -> (r: Option<&String>)
        ensures
            r is Some <==> self@.contains_key(address_key(addr.octets@) as u64),
            r matches Some(l) ==> l@ == self@[address_key(addr.octets@) as u64],
    {
        let k = addr.key();
        self.labels.get(&k)
    }

    /// Builds the table from `(address, label)` entries taken in order.
    pub fn from_entries(entries: Vec<(DeviceAddress, String)>) -> (r: DeviceLabelMap)
        ensures
            r@ == labels_of(entries@),
    {
        let mut m = DeviceLabelMap::new();
        let mut i: usize = 0;
        while i < entries.len()
            invariant
                i <= entries.len(),
                m@ == labels_of(entries@.take(i as int)),
            decreases entries.len() - i,
        {
            let (a, l) = &entries[i];
            m.insert(*a, l.clone());
            assert(entries@.take(i as int + 1).drop_last() =~= entries@.take(i as int));
            i = i + 1;
        }
        assert(entries@.take(i as int) =~= entries@);
        m
    }
}

/// Turns one read record into its `(address text, label)` pair: the first
/// two fields. A read failure is passed on; a record of fewer than two
/// fields is refused.
pub fn handle_record(result_record: Result<csv::StringRecord, csv::Error>) -> (r: Result<
    (String, String),
    ConfigError,
>)
    ensures
        result_record is Err <==> r matches Err(ConfigError::Read(_)),
        result_record matches Ok(rec) ==> {
            let f = record_fields(rec);
            if f.len() >= 2 {
                r matches Ok((a, l)) && a@ == f[0] && l@ == f[1]
            } else {
                r matches Err(ConfigError::MissingFields)
            }
        },
{
    match result_record {
        Ok(record) => {
            let addr = record_field(&record, 0);
            let name = record_field(&record, 1);
            match (addr, name) {
                (Some(a), Some(n)) => Ok((a, n)),
                _ => Err(ConfigError::MissingFields),
            }
        },
        Err(e) => Err(ConfigError::Read(e)),
    }
}

} // verus!
