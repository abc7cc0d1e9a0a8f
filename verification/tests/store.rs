use vbus_logger::config::Config;
use vbus_logger::csv_generator::CsvGenerator;
use vbus_logger::field::FieldText;
use vbus_logger::recorder::{DueSinks, Recorder};
use vbus_logger::snapshot::{Record, SnapshotStore};
use vbus_logger::timestamp_file_writer::{FileStep, LocalTimestamp};

fn record(channel: u8, source: u16, command: u16, first_byte: u8) -> Record {
    let mut frame_data = [0u8; 508];
    frame_data[0] = first_byte;
    Record {
        channel,
        destination_address: 0x0010,
        source_address: source,
        protocol_version: 0x10,
        command,
        timestamp_nanos: 1_485_688_933_000_000_000,
        frame_count: 1,
        frame_data,
    }
}

fn settings(known: Vec<String>, interval: i64) -> Config {
    Config {
        path: None,
        address: None,
        via_tag: None,
        password: None,
        channel: None,
        known_packet_ids: known,
        png_tick_interval: 0,
        png_input_filename: String::new(),
        png_output_filename: String::new(),
        csv_tick_interval: interval,
        csv_output_filename_pattern: String::from("%Y%m%d.csv"),
        live_data_text_tick_interval: -1,
        live_data_text_output_filename: String::new(),
        sqlite_tick_interval: 2 * interval,
        sqlite_filename: String::new(),
        sqlite_datasets_table: None,
        sqlite_fields_table: None,
        sqlite_statement: None,
        sqlite_fields: None,
        vsf_filename: None,
    }
}

#[test]
fn new_store_is_empty() {
    let store = SnapshotStore::new();
    assert_eq!(store.len(), 0);
    assert!(store.iter_sorted().is_empty());
    assert_eq!(store.as_data_set().len(), 0);
}

#[test]
fn merge_same_identity_keeps_latest() {
    let mut store = SnapshotStore::new();
    assert!(store.merge(record(0, 0x7210, 0x0100, 1)));
    assert!(!store.merge(record(0, 0x7210, 0x0100, 2)));
    assert_eq!(store.len(), 1);
    let records = store.iter_sorted();
    assert_eq!(records.len(), 1);
    assert_eq!(records[0], record(0, 0x7210, 0x0100, 2));
}

#[test]
fn merge_reports_growth() {
    let mut store = SnapshotStore::new();
    assert!(store.merge(record(0, 0x7210, 0x0100, 1)));
    assert!(store.merge(record(0, 0x7211, 0x0100, 1)));
    assert!(store.merge(record(1, 0x7210, 0x0100, 1)));
    assert!(store.merge(record(0, 0x7210, 0x0200, 1)));
    assert!(!store.merge(record(0, 0x7211, 0x0100, 9)));
    assert_eq!(store.len(), 4);
}

#[test]
fn merge_tells_protocol_versions_apart() {
    let mut store = SnapshotStore::new();
    let first = record(0, 0x7210, 0x0100, 1);
    let mut second = first;
    second.protocol_version = 0x11;
    assert!(store.merge(first));
    assert!(store.merge(second));
    assert_eq!(store.len(), 2);
}

#[test]
fn merge_keeps_timestamp_and_frames() {
    let mut store = SnapshotStore::new();
    let mut r = record(3, 0x4321, 0x0500, 7);
    r.timestamp_nanos = -5;
    r.frame_count = 127;
    r.frame_data[507] = 0xAB;
    store.merge(r);
    assert_eq!(store.iter_sorted(), vec![r]);
}

#[test]
fn iter_sorted_orders_by_identity() {
    let mut store = SnapshotStore::new();
    store.merge(record(1, 0x0001, 0x0100, 1));
    store.merge(record(0, 0x7211, 0x0100, 2));
    store.merge(record(0, 0x7210, 0x0200, 3));
    store.merge(record(0, 0x7210, 0x0100, 4));
    let records = store.iter_sorted();
    assert_eq!(
        records,
        vec![
            record(0, 0x7210, 0x0100, 4),
            record(0, 0x7210, 0x0200, 3),
            record(0, 0x7211, 0x0100, 2),
            record(1, 0x0001, 0x0100, 1),
        ]
    );
    // the store itself keeps arrival order
    assert_eq!(store.as_data_set().as_data_slice()[0].as_packet().header.channel, 1);
}

#[test]
fn fingerprint_follows_identities_and_values() {
    let mut a = SnapshotStore::new();
    a.merge(record(0, 0x7210, 0x0100, 1));
    a.merge(record(0, 0x7211, 0x0100, 2));
    let mut b = SnapshotStore::new();
    b.merge(record(0, 0x7211, 0x0100, 2));
    b.merge(record(0, 0x7210, 0x0100, 1));
    // arrival order does not matter
    assert_eq!(a.fingerprint(), b.fingerprint());
    let before = a.fingerprint();
    // nor does the arrival time
    let mut again = record(0, 0x7210, 0x0100, 1);
    again.timestamp_nanos = 1;
    a.merge(again);
    assert_eq!(a.fingerprint(), before);
    // a value does
    a.merge(record(0, 0x7210, 0x0100, 9));
    assert_ne!(a.fingerprint(), before);
    a.merge(record(0, 0x7210, 0x0100, 1));
    assert_eq!(a.fingerprint(), before);
    // and so does an identity
    a.merge(record(0, 0x7212, 0x0100, 1));
    assert_ne!(a.fingerprint(), before);
    assert_ne!(SnapshotStore::new().fingerprint(), before);
}

#[test]
fn clone_is_independent() {
    let mut store = SnapshotStore::new();
    store.merge(record(0, 0x7210, 0x0100, 1));
    let copy = store.clone();
    store.merge(record(0, 0x7211, 0x0100, 1));
    store.merge(record(0, 0x7210, 0x0100, 2));
    assert_eq!(copy.len(), 1);
    assert_eq!(copy.iter_sorted(), vec![record(0, 0x7210, 0x0100, 1)]);
    assert_eq!(store.len(), 2);
}

#[test]
fn recorder_settles_on_ninth_repeat() {
    let mut recorder = Recorder::new(&settings(Vec::new(), 60), 0, 0).unwrap();
    let records = [
        record(0, 0x7210, 0x0100, 1),
        record(0, 0x7211, 0x0100, 2),
        record(0, 0x7212, 0x0100, 3),
    ];
    for r in records {
        recorder.ingest(r);
        assert!(!recorder.is_settled());
    }
    for round in 0..3 {
        for (i, r) in records.iter().enumerate() {
            recorder.ingest(*r);
            assert_eq!(recorder.is_settled(), round == 2 && i == 2);
        }
    }
    assert_eq!(recorder.store().len(), 3);
    // a fourth identity unsettles, and asks for twelve quiet cycles
    recorder.ingest(record(0, 0x7213, 0x0100, 4));
    assert!(!recorder.is_settled());
    for _ in 0..11 {
        recorder.ingest(records[0]);
        assert!(!recorder.is_settled());
    }
    recorder.ingest(records[0]);
    assert!(recorder.is_settled());
}

#[test]
fn recorder_gates_ticks_by_settling() {
    let none = DueSinks { png: false, csv: false, live_data_text: false, sqlite: false };
    let mut recorder = Recorder::new(&settings(Vec::new(), 60), 0, 0).unwrap();
    // unsettled: the tick at 60 is lost
    assert_eq!(recorder.poll(60), none);
    recorder.ingest(record(0, 0x7210, 0x0100, 1));
    for _ in 0..3 {
        recorder.ingest(record(0, 0x7210, 0x0100, 1));
    }
    assert!(recorder.is_settled());
    assert_eq!(recorder.poll(61), none);
    assert_eq!(
        recorder.poll(120),
        DueSinks { png: false, csv: true, live_data_text: false, sqlite: true }
    );
    assert_eq!(recorder.poll(121), none);
    assert_eq!(
        recorder.poll(180),
        DueSinks { png: false, csv: true, live_data_text: false, sqlite: false }
    );
}

#[test]
fn recorder_starts_with_expected_identities() {
    let known = vec![
        String::from("00_0010_7210_10_0100"),
        String::from("01_0015_7E11_10_0200"),
        String::from("00_0010_7210_10_0100"),
    ];
    let mut recorder = Recorder::new(&settings(known, 60), 7, 7_000_000_000).unwrap();
    assert_eq!(recorder.store().len(), 2);
    let placeholders = recorder.store().iter_sorted();
    assert_eq!(
        placeholders[0],
        Record {
            channel: 0,
            destination_address: 0x0010,
            source_address: 0x7210,
            protocol_version: 0x10,
            command: 0x0100,
            timestamp_nanos: 7_000_000_000,
            frame_count: 0,
            frame_data: [0u8; 508],
        }
    );
    assert_eq!(placeholders[1].channel, 1);
    assert_eq!(placeholders[1].destination_address, 0x0015);
    assert_eq!(placeholders[1].source_address, 0x7E11);
    assert_eq!(placeholders[1].command, 0x0200);
    // two expected identities: six quiet cycles
    for _ in 0..5 {
        recorder.ingest(record(0, 0x7210, 0x0100, 1));
        assert!(!recorder.is_settled());
    }
    recorder.ingest(record(0, 0x7210, 0x0100, 1));
    assert!(recorder.is_settled());
}

#[test]
fn recorder_rejects_malformed_identity() {
    let known = vec![String::from("00_0010_7210_10_0100"), String::from("00_0010_7210_10_01")];
    let err = match Recorder::new(&settings(known, 60), 0, 0) {
        Ok(_) => panic!("expected an error"),
        Err(err) => err,
    };
    assert_eq!(err.description(), "An error occurred");
    assert!(err.cause().is_some());
    assert!(err.message().starts_with("An error occurred, caused by: "));
}

#[test]
fn text_sink_writes_header_once_after_settling() {
    let config = settings(Vec::new(), 60);
    let mut recorder = Recorder::new(&config, -1, -1_000_000_000).unwrap();
    let records = [
        record(0, 0x7210, 0x0100, 1),
        record(0, 0x7211, 0x0100, 2),
        record(0, 0x7212, 0x0100, 3),
    ];
    for r in records {
        recorder.ingest(r);
    }
    for _ in 0..3 {
        for r in records {
            recorder.ingest(r);
        }
    }
    assert!(recorder.is_settled());
    let fields = vec![FieldText {
        packet_id: String::from("00_0010_7210_10_0100"),
        field_id: String::from("000_2_0"),
        packet_name: String::from("DeltaSol"),
        name: String::from("Temp 1"),
        unit_text: String::from(" K"),
        value: String::from("1.0"),
        value_with_unit: String::from("1.0 K"),
        has_number: true,
    }];
    let mut csv = CsvGenerator::from_config(&config, LocalTimestamp { secs: -1, offset_secs: 0 });
    let mut written = String::new();
    for now in [0, 30, 60, 90, 120] {
        if recorder.poll(now).csv {
            let out = csv
                .generate(recorder.store(), LocalTimestamp { secs: now, offset_secs: 0 }, &fields)
                .unwrap();
            if let FileStep::Open(path) = out.step {
                assert_eq!(now, 0);
                assert_eq!(path, "19700101.csv");
                csv.file_opened(path);
            }
            assert_eq!(out.wrote_header, now == 0);
            written.push_str(&out.text);
        }
    }
    assert_eq!(
        written,
        "Datum\tTemp 1 [K]\n\
         1970.01.01 00:00:00\t1.0\n\
         1970.01.01 00:01:00\t1.0\n\
         1970.01.01 00:02:00\t1.0\n"
    );
}
