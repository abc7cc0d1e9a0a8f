//! The decisions of the main loop: what a received record does to the
//! snapshot and its settling, and which outputs are due at an instant.

use crate::config::Config;
use crate::error::Error;
use crate::settling::{
    after_quiet, lemma_quiet_cycles_add, lemma_settled_stays, lemma_settles_at_target, next,
    restarted, Settling, SettlingDetector,
};
use crate::snapshot::{
    distinct_keys, has_key, lemma_first_with_key, merged, Entry, Record, SnapshotStore,
};
use crate::packet_id::{parse_packet_id, parsed_packet_id};
use crate::tick_source::{bucket, TickSource};
use vstd::prelude::*;

verus! {

/// The protocol version that stands in the header of a packet.
pub const PACKET_PROTOCOL_VERSION: u8 = 0x10;

/// The placeholder that stands for an expected identity until its first
/// record arrives: a packet without frames.
pub open spec fn placeholder(id: (u8, u16, u16, u16), now_nanos: i64) -> Entry {
    ((id.0, id.1, id.2, PACKET_PROTOCOL_VERSION, id.3), (now_nanos, 0u8, Seq::new(508, |i: int| 0u8)))
}

/// Every text of `ids` is a packet identity.
pub open spec fn all_parse(ids: Seq<String>) -> bool {
    forall|i: int| 0 <= i < ids.len() ==> parsed_packet_id(#[trigger] ids[i]@) is Some
}

/// The store after the placeholders of `ids` were merged in order.
pub open spec fn placeholders(ids: Seq<String>, now_nanos: i64) -> Seq<Entry>
    decreases ids.len(),
{
    if ids.len() == 0 {
        Seq::<Entry>::empty()
    } else {
        match parsed_packet_id(ids.last()@) {
            Some(id) => merged(placeholders(ids.drop_last(), now_nanos), placeholder(id, now_nanos)),
            None => placeholders(ids.drop_last(), now_nanos),
        }
    }
}

/// The placeholder record for an expected identity.
pub fn placeholder_record(id: (u8, u16, u16, u16), now_nanos: i64) -> (record: Record)
    ensures
        record@ == placeholder(id, now_nanos),
{
    let record = Record {
        channel: id.0,
        destination_address: id.1,
        source_address: id.2,
        protocol_version: PACKET_PROTOCOL_VERSION,
        command: id.3,
        timestamp_nanos: now_nanos,
        frame_count: 0,
        frame_data: [0u8; 508],
    };
    proof {
        assert(record.frame_data@ =~= Seq::new(508, |i: int| 0u8));
    }
    record
}

/// The snapshot and its settling after one record was ingested.
pub open spec fn ingested(state: (Seq<Entry>, Settling), e: Entry) -> (Seq<Entry>, Settling) {
    let store = merged(state.0, e);
    (store, next(state.1, !has_key(state.0, e.0), store.len()))
}

/// The snapshot and its settling after the records were ingested in order.
pub open spec fn ingested_all(state: (Seq<Entry>, Settling), es: Seq<Entry>) -> (
    Seq<Entry>,
    Settling,
)
    decreases es.len(),
{
    if es.len() == 0 {
        state
    } else {
        ingested(ingested_all(state, es.drop_last()), es.last())
    }
}

/// Every record has an identity that the snapshot already holds.
pub open spec fn all_known(store: Seq<Entry>, es: Seq<Entry>) -> bool {
    forall|i: int| 0 <= i < es.len() ==> has_key(store, (#[trigger] es[i]).0)
}

/// Which outputs are to be rendered now.
#[derive(Clone, Copy, Debug, PartialEq, Eq)]
pub struct DueSinks {
    pub png: bool,
    pub csv: bool,
    pub live_data_text: bool,
    pub sqlite: bool,
}

/// The state that the main loop owns: the snapshot, its settling, and one
/// scheduler per output.
pub struct Recorder {
    store: SnapshotStore,
    settling: SettlingDetector,
    png_tick_source: TickSource,
    csv_tick_source: TickSource,
    live_data_text_tick_source: TickSource,
    sqlite_tick_source: TickSource,
}

impl Recorder {
    /// The snapshot.
    pub closed spec fn snapshot(&self) -> SnapshotStore {
        self.store
    }

    /// The settling state.
    pub closed spec fn settling(&self) -> SettlingDetector {
        self.settling
    }

    /// The scheduler of the image output.
    pub closed spec fn png_ticks(&self) -> TickSource {
        self.png_tick_source
    }

    /// The scheduler of the delimited-text output.
    pub closed spec fn csv_ticks(&self) -> TickSource {
        self.csv_tick_source
    }

    /// The scheduler of the live dump.
    pub closed spec fn live_data_text_ticks(&self) -> TickSource {
        self.live_data_text_tick_source
    }

    /// The scheduler of the database output.
    pub closed spec fn sqlite_ticks(&self) -> TickSource {
        self.sqlite_tick_source
    }

    /// The parts are well formed.
    pub open spec fn wf(&self) -> bool {
        self.snapshot().wf() && self.settling().wf()
    }

    /// The state at start-up, at the instant `now_secs` (whose nanosecond
    /// count is `now_nanos`): the snapshot holds a placeholder for each
    /// expected identity, settling starts from their number, and each
    /// scheduler starts in the bucket of `now_secs`. Fails where an expected
    /// identity is not one.
    pub fn new(config: &Config, now_secs: i64, now_nanos: i64) -> (result: Result<Recorder, Error>)
        ensures
            all_parse(config.known_packet_ids@) <==> result is Ok,
            result is Err ==> result->Err_0.description_text() == "An error occurred"@,
            result is Ok ==> {
                let r = result->Ok_0;
                &&& r.wf()
                &&& r.snapshot()@ == placeholders(config.known_packet_ids@, now_nanos)
                &&& r.settling()@ == restarted(r.snapshot()@.len())
                &&& starts_at(r.png_ticks(), config.png_tick_interval, now_secs)
                &&& starts_at(r.csv_ticks(), config.csv_tick_interval, now_secs)
                &&& starts_at(r.live_data_text_ticks(), config.live_data_text_tick_interval, now_secs)
                &&& starts_at(r.sqlite_ticks(), config.sqlite_tick_interval, now_secs)
            },
    {
        let mut store = SnapshotStore::new();
        let ids = &config.known_packet_ids;
        let mut i: usize = 0;
        while i < ids.len()
            invariant
                i <= ids.len(),
                ids@ == config.known_packet_ids@,
                store.wf(),
                all_parse(ids@.take(i as int)),
                store@ == placeholders(ids@.take(i as int), now_nanos),
            decreases ids.len() - i,
        {
            proof {
                assert(ids@.take(i + 1).drop_last() =~= ids@.take(i as int));
                assert(ids@.take(i + 1).last() == ids@[i as int]);
            }
            match parse_packet_id(ids[i].as_str()) {
                Ok(id) => {
                    let record = placeholder_record(id, now_nanos);
                    store.merge(record);
                    proof {
                        assert forall|j: int| 0 <= j < i + 1 implies parsed_packet_id(
                            #[trigger] ids@.take(i + 1)[j]@,
                        ) is Some by {
                            if j < i {
                                assert(ids@.take(i + 1)[j] == ids@.take(i as int)[j]);
                            }
                        }
                    }
                },
                Err(err) => {
                    proof {
                        assert(parsed_packet_id(ids@[i as int]@) is None);
                        assert(ids@ == config.known_packet_ids@);
                        assert(!all_parse(config.known_packet_ids@));
                    }
                    return Err(Error::from_cause(err));
                },
            }
            i = i + 1;
        }
        proof {
            assert(ids@.take(ids.len() as int) =~= ids@);
        }
        let settling = SettlingDetector::new(store.len());
        Ok(
            Recorder {
                store,
                settling,
                png_tick_source: TickSource::new(config.png_tick_interval, now_secs),
                csv_tick_source: TickSource::new(config.csv_tick_interval, now_secs),
                live_data_text_tick_source: TickSource::new(
                    config.live_data_text_tick_interval,
                    now_secs,
                ),
                sqlite_tick_source: TickSource::new(config.sqlite_tick_interval, now_secs),
            },
        )
    }

    /// Polls every scheduler at `now` and says which outputs are to be
    /// rendered: those whose scheduler ticked, and none while the snapshot is
    /// unsettled. A tick that falls into an unsettled stretch is lost.
    pub fn poll(&mut self, now: i64) -> (due: DueSinks)
        ensures
            final(self).snapshot() == old(self).snapshot(),
            final(self).settling() == old(self).settling(),
            polled(old(self).png_ticks(), final(self).png_ticks(), now),
            polled(old(self).csv_ticks(), final(self).csv_ticks(), now),
            polled(old(self).live_data_text_ticks(), final(self).live_data_text_ticks(), now),
            polled(old(self).sqlite_ticks(), final(self).sqlite_ticks(), now),
            due.png == (old(self).settling()@.settled && old(self).png_ticks().fires_at(now as int)),
            due.csv == (old(self).settling()@.settled && old(self).csv_ticks().fires_at(now as int)),
            due.live_data_text == (old(self).settling()@.settled
                && old(self).live_data_text_ticks().fires_at(now as int)),
            due.sqlite == (old(self).settling()@.settled && old(self).sqlite_ticks().fires_at(
                now as int,
            )),
    {
        let settled = self.settling.is_settled();
        let png = self.png_tick_source.process(now);
        let csv = self.csv_tick_source.process(now);
        let live_data_text = self.live_data_text_tick_source.process(now);
        let sqlite = self.sqlite_tick_source.process(now);
        DueSinks {
            png: settled && png,
            csv: settled && csv,
            live_data_text: settled && live_data_text,
            sqlite: settled && sqlite,
        }
    }

    /// Merges a received record into the snapshot and accounts for the cycle
    /// in the settling state. The schedulers are not touched.
    pub fn ingest(&mut self, record: Record)
        requires
            old(self).wf(),
        ensures
            final(self).wf(),
            (final(self).snapshot()@, final(self).settling()@) == ingested(
                (old(self).snapshot()@, old(self).settling()@),
                record@,
            ),
            final(self).png_ticks() == old(self).png_ticks(),
            final(self).csv_ticks() == old(self).csv_ticks(),
            final(self).live_data_text_ticks() == old(self).live_data_text_ticks(),
            final(self).sqlite_ticks() == old(self).sqlite_ticks(),
    {
        let grew = self.store.merge(record);
        let count: usize = self.store.len();
        self.settling.observe(grew, count);
    }

    /// Whether the snapshot may be rendered.
    pub fn is_settled(&self) -> (b: bool)
        ensures
            b == self.settling()@.settled,
    {
        self.settling.is_settled()
    }

    /// The snapshot, for the outputs to read.
    pub fn store(&self) -> (s: &SnapshotStore)
        ensures
            *s == self.snapshot(),
    {
        &self.store
    }
}

/// A scheduler as `TickSource::new` builds it for `interval` at `now`.
pub open spec fn starts_at(t: TickSource, interval: i64, now: i64) -> bool {
    &&& t.interval() == interval
    &&& t.last_bucket() == (if interval > 0 {
        bucket(now as int, interval as int)
    } else {
        0
    })
}

/// A scheduler before and after it was polled at `now`.
pub open spec fn polled(before: TickSource, after: TickSource, now: i64) -> bool {
    &&& after.interval() == before.interval()
    &&& after.last_bucket() == before.bucket_after(now as int)
}

/// Merging a record under an identity that is present keeps the identities
/// that are present, and their number.
pub proof fn lemma_merge_known(store: Seq<Entry>, e: Entry)
    requires
        has_key(store, e.0),
    ensures
        merged(store, e).len() == store.len(),
        forall|k| has_key(store, k) <==> has_key(merged(store, e), k),
{
    lemma_first_with_key(store, e.0);
    let t = merged(store, e);
    assert forall|k| has_key(store, k) <==> has_key(t, k) by {
        if has_key(store, k) {
            let i = choose|i: int| 0 <= i < store.len() && store[i].0 == k;
            assert(t[i].0 == k);
        }
        if has_key(t, k) {
            let i = choose|i: int| 0 <= i < t.len() && t[i].0 == k;
            assert(store[i].0 == k);
        }
    }
}

/// Records with pairwise distinct identities that arrive in an empty
/// snapshot each restart the settling: after the last of them the snapshot
/// holds them all, and the detector waits for three quiet cycles per record.
pub proof fn lemma_distinct_arrivals_restart(m: Settling, es: Seq<Entry>)
    requires
        es.len() > 0,
        distinct_keys(es),
    ensures
        ingested_all((Seq::<Entry>::empty(), m), es) == (es, restarted(es.len())),
    decreases es.len(),
{
    let start = (Seq::<Entry>::empty(), m);
    let before = es.drop_last();
    let e = es.last();
    if before.len() > 0 {
        lemma_distinct_arrivals_restart(m, before);
    }
    assert(ingested_all(start, before).0 == before);
    assert(!has_key(before, e.0)) by {
        if has_key(before, e.0) {
            let i = choose|i: int| 0 <= i < before.len() && before[i].0 == e.0;
            assert(es[i].0 == es[es.len() - 1].0);
        }
    }
    assert(before.push(e) =~= es);
}

/// Records whose identities the snapshot already holds are quiet cycles:
/// they leave the number of identities as it is, and the settling is what
/// that many quiet cycles make of it.
pub proof fn lemma_known_arrivals_are_quiet(store: Seq<Entry>, m: Settling, es: Seq<Entry>)
    requires
        all_known(store, es),
    ensures
        ingested_all((store, m), es).0.len() == store.len(),
        forall|k| has_key(store, k) <==> has_key(ingested_all((store, m), es).0, k),
        ingested_all((store, m), es).1 == after_quiet(m, es.len()),
    decreases es.len(),
{
    if es.len() > 0 {
        let before = es.drop_last();
        let e = es.last();
        assert(all_known(store, before)) by {
            assert forall|i: int| 0 <= i < before.len() implies has_key(
                store,
                (#[trigger] before[i]).0,
            ) by {
                assert(before[i] == es[i]);
            }
        }
        lemma_known_arrivals_are_quiet(store, m, before);
        let mid = ingested_all((store, m), before);
        assert(has_key(store, e.0));
        lemma_merge_known(mid.0, e);
    }
}

/// After `n` records with distinct identities have arrived in an empty
/// snapshot, repeats of them leave the snapshot unsettled until three times
/// `n` repeats have arrived, and settle it with the repeat of that number.
pub proof fn lemma_settles_after_three_rounds(m: Settling, first: Seq<Entry>, repeats: Seq<Entry>)
    requires
        first.len() > 0,
        distinct_keys(first),
        all_known(first, repeats),
    ensures
        ingested_all(ingested_all((Seq::<Entry>::empty(), m), first), repeats).1.settled
            <==> repeats.len() >= 3 * first.len(),
{
    lemma_distinct_arrivals_restart(m, first);
    let n = first.len();
    lemma_known_arrivals_are_quiet(first, restarted(n), repeats);
    lemma_settles_at_target(n);
    if repeats.len() >= 3 * n {
        let extra = (repeats.len() - 3 * n) as nat;
        lemma_quiet_cycles_add(restarted(n), 3 * n, extra);
        lemma_settled_stays(after_quiet(restarted(n), 3 * n), extra);
    }
}

} // verus!
