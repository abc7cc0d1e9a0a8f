//! Latest-record-per-identity store, kept in a `resol_vbus::DataSet`.

use resol_vbus::chrono::DateTime;
use resol_vbus::{Data, DataSet, Header, Packet};
use std::collections::hash_map::DefaultHasher;
use std::hash::Hasher;
use vstd::prelude::*;
use vstd::std_specs::hash::DefaultHasherAdditionalSpecFns;

verus! {

/// Identity of a record as a plain tuple: channel, destination address,
/// source address, protocol version, command.
pub type Key = (u8, u16, u16, u8, u16);

/// What a record carries besides its identity: arrival time in nanoseconds
/// since the epoch, the number of valid frames, and the frame bytes.
pub type Payload = (i64, u8, Seq<u8>);

/// A record as a mathematical value.
pub type Entry = (Key, Payload);

/// One decoded telemetry unit.
#[derive(Clone, Copy, Debug, PartialEq, Eq)]
pub struct Record {
    pub channel: u8,
    pub destination_address: u16,
    pub source_address: u16,
    pub protocol_version: u8,
    pub command: u16,
    /// Arrival time, nanoseconds since the epoch.
    pub timestamp_nanos: i64,
    pub frame_count: u8,
    pub frame_data: [u8; 508],
}

impl Record {
    /// The identity under which the store files this record.
    pub open spec fn key(&self) -> Key {
        (
            self.channel,
            self.destination_address,
            self.source_address,
            self.protocol_version,
            self.command,
        )
    }

    /// Everything but the identity.
    pub open spec fn payload(&self) -> Payload {
        (self.timestamp_nanos, self.frame_count, self.frame_data@)
    }
}

impl View for Record {
    type V = Entry;

    open spec fn view(&self) -> Entry {
        (self.key(), self.payload())
    }
}

/// Some entry of `s` has identity `k`.
pub open spec fn has_key(s: Seq<Entry>, k: Key) -> bool {
    exists|i: int| 0 <= i < s.len() && s[i].0 == k
}

/// `i` is the first position of `s` whose entry has identity `k`.
pub open spec fn is_first_with_key(s: Seq<Entry>, k: Key, i: int) -> bool {
    &&& 0 <= i < s.len()
    &&& s[i].0 == k
    &&& forall|j: int| 0 <= j < i ==> s[j].0 != k
}

/// The first position whose entry has identity `k`, where there is one.
pub open spec fn first_with_key(s: Seq<Entry>, k: Key) -> int {
    choose|i: int| is_first_with_key(s, k, i)
}

/// The contents after merging `e`: the entry with the same identity is
/// replaced in place, or `e` is appended where there is none.
pub open spec fn merged(s: Seq<Entry>, e: Entry) -> Seq<Entry> {
    if has_key(s, e.0) {
        s.update(first_with_key(s, e.0), e)
    } else {
        s.push(e)
    }
}

/// No identity occurs twice.
pub open spec fn distinct_keys(s: Seq<Entry>) -> bool {
    forall|i: int, j: int| 0 <= i < j < s.len() ==> s[i].0 != s[j].0
}

/// Lexicographic order on identities.
pub open spec fn key_le(a: Key, b: Key) -> bool {
    if a.0 != b.0 {
        a.0 < b.0
    } else if a.1 != b.1 {
        a.1 < b.1
    } else if a.2 != b.2 {
        a.2 < b.2
    } else if a.3 != b.3 {
        a.3 < b.3
    } else {
        a.4 <= b.4
    }
}

/// The entries stand in ascending order of identity.
pub open spec fn key_sorted(s: Seq<Entry>) -> bool {
    forall|i: int, j: int| 0 <= i <= j < s.len() ==> key_le(s[i].0, s[j].0)
}

/// `t` holds the entries of `s` in ascending order of identity.
pub open spec fn is_sorted_form(s: Seq<Entry>, t: Seq<Entry>) -> bool {
    key_sorted(t) && t.to_multiset() == s.to_multiset()
}

/// The entries of `s` in ascending order of identity. Where the identities
/// of `s` are distinct there is exactly one such sequence.
pub open spec fn sorted_form(s: Seq<Entry>) -> Seq<Entry> {
    choose|t: Seq<Entry>| is_sorted_form(s, t)
}

/// The identity as bytes: each part in turn, the wider ones high byte first.
pub open spec fn key_bytes(k: Key) -> Seq<u8> {
    seq![
        k.0,
        (k.1 / 256) as u8,
        (k.1 % 256) as u8,
        (k.2 / 256) as u8,
        (k.2 % 256) as u8,
        k.3,
        (k.4 / 256) as u8,
        (k.4 % 256) as u8,
    ]
}

/// What the content fingerprint hashes: for each entry in turn its identity,
/// its frame count and its frame bytes. The arrival time is left out, so
/// that a record that arrives again unchanged changes nothing.
pub open spec fn content_chunks(t: Seq<Entry>) -> Seq<Seq<u8>>
    decreases t.len(),
{
    if t.len() == 0 {
        Seq::<Seq<u8>>::empty()
    } else {
        content_chunks(t.drop_last()).push(key_bytes(t.last().0)).push(seq![t.last().1.1]).push(
            t.last().1.2,
        )
    }
}

/// The hash of the content of `t`, as std's default hasher computes it.
pub open spec fn content_hash(t: Seq<Entry>) -> u64 {
    DefaultHasher::spec_finish(content_chunks(t))
}

/// The views of the records, in order.
pub open spec fn entries_of(v: Seq<Record>) -> Seq<Entry> {
    v.map_values(|r: Record| r@)
}

/// `resol_vbus::DataSet`, carried as an opaque value: what it holds is
/// spoken of through `data_set_packets` and `data_set_others`.
#[verifier::external_type_specification]
#[verifier::external_body]
pub struct ExDataSet(resol_vbus::DataSet);

/// The packets that a `DataSet` holds, in its own order, each as identity
/// and payload.
pub uninterp spec fn data_set_packets(ds: DataSet) -> Seq<Entry>;

/// How many values other than packets a `DataSet` holds.
pub uninterp spec fn data_set_others(ds: DataSet) -> nat;

/// `DataSet::new`: a set without values.
#[verifier::external_body]
fn data_set_new() -> (ds: DataSet)
    ensures
        data_set_packets(ds) == Seq::<Entry>::empty(),
        data_set_others(ds) == 0,
{
    DataSet::new()
}

/// `DataSet::add_data` with a packet built from `record`: the first packet
/// with the same channel, addresses, protocol version and command is replaced
/// in place, or the packet is appended; other values are untouched.
#[verifier::external_body]
fn data_set_add(ds: &mut DataSet, record: &Record)
    ensures
        data_set_packets(*final(ds)) == merged(data_set_packets(*old(ds)), record@),
        data_set_others(*final(ds)) == data_set_others(*old(ds)),
{
    let header = Header {
        timestamp: DateTime::from_timestamp_nanos(record.timestamp_nanos),
        channel: record.channel,
        destination_address: record.destination_address,
        source_address: record.source_address,
        protocol_version: record.protocol_version,
    };
    let packet = Packet {
        header,
        command: record.command,
        frame_count: record.frame_count,
        frame_data: record.frame_data,
    };
    ds.add_data(Data::Packet(packet));
}

/// `DataSet::len`: the number of values held, packets and others.
#[verifier::external_body]
fn data_set_len(ds: &DataSet) -> (n: usize)
    ensures
        n == data_set_packets(*ds).len() + data_set_others(*ds),
{
    ds.len()
}

/// `DataSet::clone`: a set with the same values in the same order.
#[verifier::external_body]
fn data_set_clone(ds: &DataSet) -> (copy: DataSet)
    ensures
        data_set_packets(copy) == data_set_packets(*ds),
        data_set_others(copy) == data_set_others(*ds),
{
    ds.clone()
}

/// `DataSet::sort` on a set of packets only: the same packets, in ascending
/// order of channel, addresses, protocol version and command.
#[verifier::external_body]
fn data_set_sort(ds: &mut DataSet)
    requires
        data_set_others(*old(ds)) == 0,
    ensures
        is_sorted_form(data_set_packets(*old(ds)), data_set_packets(*final(ds))),
        data_set_others(*final(ds)) == 0,
{
    ds.sort();
}

/// `DataSet::as_data_slice` and `Data::as_packet`: the packet at position
/// `i` of a set of packets only, as a record. An arrival time that no count
/// of nanoseconds can hold reads as zero; a packet that `data_set_add` put
/// in reads as the record it was built from.
#[verifier::external_body]
fn data_set_record_at(ds: &DataSet, i: usize) -> (record: Record)
    requires
        data_set_others(*ds) == 0,
        i < data_set_packets(*ds).len(),
    ensures
        record@ == data_set_packets(*ds)[i as int],
{
    let packet = ds.as_data_slice()[i].as_packet();
    Record {
        channel: packet.header.channel,
        destination_address: packet.header.destination_address,
        source_address: packet.header.source_address,
        protocol_version: packet.header.protocol_version,
        command: packet.command,
        timestamp_nanos: packet.header.timestamp.timestamp_nanos_opt().unwrap_or_default(),
        frame_count: packet.frame_count,
        frame_data: packet.frame_data,
    }
}

/// Mapping from record identity to the most recent record.
pub struct SnapshotStore {
    data_set: DataSet,
}

impl View for SnapshotStore {
    type V = Seq<Entry>;

    closed spec fn view(&self) -> Seq<Entry> {
        data_set_packets(self.data_set)
    }
}

impl SnapshotStore {
    /// The store holds records only, at most one per identity.
    pub closed spec fn wf(&self) -> bool {
        data_set_others(self.data_set) == 0 && distinct_keys(self@)
    }

    /// An empty store.
    pub fn new() -> (store: SnapshotStore)
        ensures
            store.wf(),
            store@ == Seq::<Entry>::empty(),
    {
        SnapshotStore { data_set: data_set_new() }
    }

    /// The number of identities present.
    pub fn len(&self) -> (n: usize)
        requires
            self.wf(),
        ensures
            n == self@.len(),
    {
        data_set_len(&self.data_set)
    }

    /// Files `record` under its identity, superseding any earlier record with
    /// the same identity. Returns whether the set of identities grew.
    pub fn merge(&mut self, record: Record) -> (grew: bool)
        requires
            old(self).wf(),
        ensures
            final(self).wf(),
            final(self)@ == merged(old(self)@, record@),
            grew == !has_key(old(self)@, record.key()),
            final(self)@.len() == old(self)@.len() + (if grew { 1int } else { 0int }),
    {
        let len_before: usize = data_set_len(&self.data_set);
        data_set_add(&mut self.data_set, &record);
        let len_after: usize = data_set_len(&self.data_set);
        proof {
            lemma_merged_distinct(old(self)@, record@);
        }
        len_before != len_after
    }

    /// The records in ascending order of identity.
    pub fn iter_sorted(&self) -> (records: Vec<Record>)
        requires
            self.wf(),
        ensures
            entries_of(records@) == sorted_form(self@),
            is_sorted_form(self@, entries_of(records@)),
            records@.len() == self@.len(),
    {
        let mut sorted = data_set_clone(&self.data_set);
        data_set_sort(&mut sorted);
        let n: usize = data_set_len(&sorted);
        let mut records: Vec<Record> = Vec::new();
        let mut i: usize = 0;
        while i < n
            invariant
                data_set_others(sorted) == 0,
                n == data_set_packets(sorted).len(),
                i <= n,
                records@.len() == i,
                entries_of(records@) =~= data_set_packets(sorted).take(i as int),
            decreases n - i,
        {
            let record = data_set_record_at(&sorted, i);
            records.push(record);
            i = i + 1;
        }
        proof {
            assert(data_set_packets(sorted).take(n as int) =~= data_set_packets(sorted));
            data_set_packets(sorted).to_multiset_ensures();
            self@.to_multiset_ensures();
            lemma_sorted_form_unique(self@, entries_of(records@), sorted_form(self@));
        }
        records
    }

    /// A hash of the whole content, taken in ascending order of identity: it
    /// changes when an identity appears and when a value changes.
    pub fn fingerprint(&self) -> (h: u64)
        requires
            self.wf(),
        ensures
            h == content_hash(sorted_form(self@)),
    {
        let records = self.iter_sorted();
        let mut hasher = DefaultHasher::new();
        let mut i: usize = 0;
        while i < records.len()
            invariant
                i <= records.len(),
                hasher@ == content_chunks(entries_of(records@).take(i as int)),
            decreases records.len() - i,
        {
            let record = &records[i];
            let mut key: Vec<u8> = Vec::new();
            key.push(record.channel);
            key.push((record.destination_address / 256) as u8);
            key.push((record.destination_address % 256) as u8);
            key.push((record.source_address / 256) as u8);
            key.push((record.source_address % 256) as u8);
            key.push(record.protocol_version);
            key.push((record.command / 256) as u8);
            key.push((record.command % 256) as u8);
            let mut count: Vec<u8> = Vec::new();
            count.push(record.frame_count);
            hasher.write(key.as_slice());
            hasher.write(count.as_slice());
            hasher.write(record.frame_data.as_slice());
            proof {
                let t = entries_of(records@);
                assert(t.take(i + 1).drop_last() =~= t.take(i as int));
                assert(t.take(i + 1).last() == records@[i as int]@);
                assert(key@ =~= key_bytes(record.key()));
                assert(count@ =~= seq![record.frame_count]);
            }
            i = i + 1;
        }
        let h = hasher.finish();
        proof {
            let t = entries_of(records@);
            assert(t.take(records.len() as int) =~= t);
        }
        h
    }

    /// An independent copy with the same records.
    pub fn clone(&self) -> (copy: SnapshotStore)
        requires
            self.wf(),
        ensures
            copy.wf(),
            copy@ == self@,
    {
        SnapshotStore { data_set: data_set_clone(&self.data_set) }
    }

    /// The underlying data set, for readers that decode fields from it.
    pub fn as_data_set(&self) -> (ds: &DataSet)
        ensures
            data_set_packets(*ds) == self@,
    {
        &self.data_set
    }
}

/// Where some entry has identity `k`, the first such position is one.
pub proof fn lemma_first_with_key(s: Seq<Entry>, k: Key)
    requires
        has_key(s, k),
    ensures
        is_first_with_key(s, k, first_with_key(s, k)),
{
    let i = choose|i: int| 0 <= i < s.len() && s[i].0 == k;
    lemma_first_before(s, k, i);
}

proof fn lemma_first_before(s: Seq<Entry>, k: Key, i: int)
    requires
        0 <= i < s.len(),
        s[i].0 == k,
    ensures
        exists|f: int| is_first_with_key(s, k, f),
    decreases i,
{
    if exists|j: int| 0 <= j < i && s[j].0 == k {
        let j = choose|j: int| 0 <= j < i && s[j].0 == k;
        lemma_first_before(s, k, j);
    } else {
        assert(is_first_with_key(s, k, i));
    }
}

/// Merging keeps the identities distinct, and changes the length exactly
/// when the identity is new.
pub proof fn lemma_merged_distinct(s: Seq<Entry>, e: Entry)
    requires
        distinct_keys(s),
    ensures
        distinct_keys(merged(s, e)),
        has_key(merged(s, e), e.0),
        merged(s, e).len() == s.len() + (if has_key(s, e.0) { 0int } else { 1int }),
{
    let t = merged(s, e);
    if has_key(s, e.0) {
        lemma_first_with_key(s, e.0);
        let f = first_with_key(s, e.0);
        assert(t[f].0 == e.0);
        assert forall|i: int, j: int| 0 <= i < j < t.len() implies t[i].0 != t[j].0 by {
            assert(t[i].0 == s[i].0);
            assert(t[j].0 == s[j].0);
        }
    } else {
        assert(t[s.len() as int].0 == e.0);
        assert forall|i: int, j: int| 0 <= i < j < t.len() implies t[i].0 != t[j].0 by {
            if j < s.len() {
                assert(t[i] == s[i] && t[j] == s[j]);
            } else {
                assert(t[i] == s[i]);
            }
        }
    }
}

/// A sequence with the same entries as one whose identities are distinct has
/// distinct identities too.
pub proof fn lemma_same_entries_distinct(s: Seq<Entry>, t: Seq<Entry>)
    requires
        distinct_keys(s),
        s.to_multiset() == t.to_multiset(),
    ensures
        distinct_keys(t),
{
    broadcast use vstd::seq_lib::group_to_multiset_ensures;

    assert(s.no_duplicates());
    s.lemma_multiset_has_no_duplicates();
    t.lemma_multiset_has_no_duplicates_conv();
    assert forall|i: int, j: int| 0 <= i < j < t.len() implies t[i].0 != t[j].0 by {
        assert(t[i] != t[j]);
        assert(t.contains(t[i]));
        assert(t.contains(t[j]));
        assert(s.to_multiset().count(t[i]) > 0);
        assert(s.to_multiset().count(t[j]) > 0);
        assert(s.contains(t[i]));
        assert(s.contains(t[j]));
        let a = choose|a: int| 0 <= a < s.len() && s[a] == t[i];
        let b = choose|b: int| 0 <= b < s.len() && s[b] == t[j];
        if a < b {
            assert(s[a].0 != s[b].0);
        } else if b < a {
            assert(s[b].0 != s[a].0);
        }
    }
}

/// Two sequences in ascending order of identity, with distinct identities
/// and the same entries, are the same sequence.
pub proof fn lemma_ascending_unique(x: Seq<Entry>, y: Seq<Entry>)
    requires
        key_sorted(x),
        key_sorted(y),
        distinct_keys(x),
        distinct_keys(y),
        x.to_multiset() == y.to_multiset(),
    ensures
        x == y,
    decreases x.len(),
{
    broadcast use vstd::seq_lib::group_to_multiset_ensures;
    broadcast use vstd::multiset::group_multiset_axioms;

    x.to_multiset_ensures();
    y.to_multiset_ensures();
    assert(x.len() == y.len());
    if x.len() > 0 {
        assert(x.contains(x[0]));
        assert(y.contains(y[0]));
        assert(y.to_multiset().count(x[0]) > 0);
        assert(x.to_multiset().count(y[0]) > 0);
        assert(y.contains(x[0]));
        assert(x.contains(y[0]));
        let i = choose|i: int| 0 <= i < x.len() && x[i] == y[0];
        let j = choose|j: int| 0 <= j < y.len() && y[j] == x[0];
        assert(key_le(x[0].0, x[i].0));
        assert(key_le(y[0].0, y[j].0));
        assert(x[0].0 == y[0].0);
        if i > 0 {
            assert(x[0].0 != x[i].0);
        }
        assert(x[0] == y[0]);
        let xs = x.drop_first();
        let ys = y.drop_first();
        assert(xs =~= x.remove(0));
        assert(ys =~= y.remove(0));
        assert(xs.to_multiset() =~= x.to_multiset().remove(x[0]));
        assert(ys.to_multiset() =~= y.to_multiset().remove(y[0]));
        assert(key_sorted(xs)) by {
            assert forall|a: int, b: int| 0 <= a <= b < xs.len() implies key_le(xs[a].0, xs[b].0) by {
                assert(xs[a] == x[a + 1] && xs[b] == x[b + 1]);
            }
        }
        assert(key_sorted(ys)) by {
            assert forall|a: int, b: int| 0 <= a <= b < ys.len() implies key_le(ys[a].0, ys[b].0) by {
                assert(ys[a] == y[a + 1] && ys[b] == y[b + 1]);
            }
        }
        assert(distinct_keys(xs)) by {
            assert forall|a: int, b: int| 0 <= a < b < xs.len() implies xs[a].0 != xs[b].0 by {
                assert(xs[a] == x[a + 1] && xs[b] == x[b + 1]);
            }
        }
        assert(distinct_keys(ys)) by {
            assert forall|a: int, b: int| 0 <= a < b < ys.len() implies ys[a].0 != ys[b].0 by {
                assert(ys[a] == y[a + 1] && ys[b] == y[b + 1]);
            }
        }
        lemma_ascending_unique(xs, ys);
        assert(x =~= seq![x[0]] + xs);
        assert(y =~= seq![y[0]] + ys);
    }
}

/// A store has one sorted form: whatever holds its entries in ascending
/// order of identity is the same sequence. So the order in which records
/// are handed out, and the fingerprints, depend on the content alone.
pub proof fn lemma_sorted_form_unique(s: Seq<Entry>, x: Seq<Entry>, y: Seq<Entry>)
    requires
        distinct_keys(s),
        is_sorted_form(s, x),
        is_sorted_form(s, y),
    ensures
        x == y,
{
    lemma_same_entries_distinct(s, x);
    lemma_same_entries_distinct(s, y);
    lemma_ascending_unique(x, y);
}

/// The order in which records arrived does not show in the sorted form: two
/// sequences with the same entries, one of them with the sorted form `t`,
/// both have it.
pub proof fn lemma_sorted_form_ignores_order(a: Seq<Entry>, b: Seq<Entry>, t: Seq<Entry>)
    requires
        distinct_keys(a),
        a.to_multiset() == b.to_multiset(),
        is_sorted_form(a, t),
    ensures
        sorted_form(a) == t,
        sorted_form(b) == t,
        content_hash(sorted_form(a)) == content_hash(sorted_form(b)),
{
    lemma_same_entries_distinct(a, b);
    assert(is_sorted_form(b, t));
    lemma_sorted_form_unique(a, sorted_form(a), t);
    lemma_sorted_form_unique(b, sorted_form(b), t);
}

/// Merging two records with the same identity one after the other leaves
/// exactly one entry under that identity, and it is the later record.
pub proof fn lemma_merge_keeps_latest(s: Seq<Entry>, a: Entry, b: Entry)
    requires
        distinct_keys(s),
        a.0 == b.0,
    ensures
        merged(merged(s, a), b).len() == merged(s, a).len(),
        exists|i: int| is_first_with_key(merged(merged(s, a), b), b.0, i)
            && merged(merged(s, a), b)[i] == b,
        forall|i: int, j: int|
            0 <= i < merged(merged(s, a), b).len() && 0 <= j < merged(merged(s, a), b).len()
                && merged(merged(s, a), b)[i].0 == b.0 && merged(merged(s, a), b)[j].0 == b.0
                ==> i == j,
{
    let u = merged(s, a);
    let t = merged(u, b);
    lemma_merged_distinct(s, a);
    lemma_merged_distinct(u, b);
    lemma_first_with_key(u, b.0);
    let f = first_with_key(u, b.0);
    assert(t[f] == b);
    assert(is_first_with_key(t, b.0, f)) by {
        assert forall|j: int| 0 <= j < f implies t[j].0 != b.0 by {
            assert(t[j] == u[j]);
        }
    }
    assert forall|i: int, j: int|
        0 <= i < t.len() && 0 <= j < t.len() && t[i].0 == b.0 && t[j].0 == b.0 implies i == j by {
        if i < j {
            assert(t[i].0 != t[j].0);
        } else if j < i {
            assert(t[j].0 != t[i].0);
        }
    }
}

} // verus!
