use oxdb::engine::{
    index_file_name, load_data, load_index, pull_all, pull_by_uids, vec_file_name, DocFormat, Log,
    PullData, RawContent,
};
use oxdb::records::{DataFile, IndexFile, IndexRecord};
use oxdb::search::search_uid;
use oxdb::OxError;

fn fresh_log() -> Log {
    let log = Log::new("test", Some("/tmp/oxdb-test".to_string())).unwrap();
    assert_eq!(log.doc_entry, 0);
    log
}

fn empty_index() -> IndexFile {
    load_index(RawContent::Absent).0
}

fn empty_data() -> DataFile {
    load_data(RawContent::Absent).0
}

#[test]
fn push_then_pull_round_trip() {
    let mut log = fresh_log();
    let out = log
        .push(
            Some(vec!["hello".to_string()]),
            None,
            None,
            Some("greeting".to_string()),
            None,
            empty_index(),
            empty_data(),
            empty_data(),
        )
        .unwrap();
    assert!(out.uid.starts_with("0-greeting-"));
    assert_eq!(out.uid.len(), "0-greeting-".len() + 36);
    let got = pull_by_uids(&out.datafile, &vec![out.uid.clone()]);
    assert_eq!(got.len(), 1);
    assert_eq!(got[0].uid, out.uid);
    assert_eq!(got[0].data, PullData::Payload(vec!["hello".to_string()]));
}

#[test]
fn sequence_numbers_and_persisted_counter() {
    let mut log = fresh_log();
    let out1 = log
        .push(
            Some(vec!["a".to_string()]),
            None,
            None,
            None,
            None,
            empty_index(),
            empty_data(),
            empty_data(),
        )
        .unwrap();
    assert!(out1.uid.starts_with("0-key-"));
    assert_eq!(out1.index.doc_entry, Some(1));
    assert_eq!(log.doc_entry, 1);
    let out2 = log
        .push(
            Some(vec!["b".to_string()]),
            None,
            None,
            None,
            None,
            out1.index,
            out1.datafile,
            out1.vecfile,
        )
        .unwrap();
    assert!(out2.uid.starts_with("1-key-"));
    assert_eq!(out2.index.doc_entry, Some(2));
    assert_eq!(log.doc_entry, 2);

    // Reopening the document reads the counter back from the persisted ledger.
    let mut reopened = fresh_log();
    reopened.load_counter(&out2.index);
    assert_eq!(reopened.doc_entry, 2);
    assert_eq!(out2.datafile.entries.len(), 2);
}

#[test]
fn embeddings_default_to_data() {
    let mut log = fresh_log();
    let out = log
        .push(
            Some(vec!["payload".to_string()]),
            None,
            None,
            None,
            None,
            empty_index(),
            empty_data(),
            empty_data(),
        )
        .unwrap();
    assert_eq!(out.vecfile.entries.len(), 1);
    assert_eq!(out.vecfile.entries[0].data, vec!["payload".to_string()]);

    let mut log2 = fresh_log();
    let out2 = log2
        .push(
            Some(vec!["payload".to_string()]),
            Some(vec!["0.5".to_string(), "0.25".to_string()]),
            None,
            None,
            None,
            empty_index(),
            empty_data(),
            empty_data(),
        )
        .unwrap();
    assert_eq!(
        out2.vecfile.entries[0].data,
        vec!["0.5".to_string(), "0.25".to_string()]
    );
}

#[test]
fn missing_data_fails_before_any_write() {
    let mut log = fresh_log();
    let r = log.push(
        None,
        None,
        None,
        None,
        None,
        empty_index(),
        empty_data(),
        empty_data(),
    );
    assert_eq!(r.err(), Some(OxError::MissingInput));
    assert_eq!(log.doc_entry, 0);

    let r2 = log.push(
        Some(vec![]),
        None,
        None,
        None,
        None,
        empty_index(),
        empty_data(),
        empty_data(),
    );
    assert_eq!(r2.err(), Some(OxError::MissingInput));
    assert!(!Log::has_data(&None));
    assert!(!Log::has_data(&Some(vec![])));
    assert!(Log::has_data(&Some(vec!["x".to_string()])));
}

#[test]
fn missing_uid_is_silently_omitted() {
    let mut log = fresh_log();
    let out = log
        .push(
            Some(vec!["hello".to_string()]),
            None,
            None,
            None,
            None,
            empty_index(),
            empty_data(),
            empty_data(),
        )
        .unwrap();
    let got = pull_by_uids(&out.datafile, &vec!["nonexistent".to_string()]);
    assert_eq!(got.len(), 0);
}

#[test]
fn reserved_uid_pulls_the_counter() {
    let mut log = fresh_log();
    let out = log
        .push(
            Some(vec!["hello".to_string()]),
            None,
            None,
            None,
            None,
            empty_index(),
            empty_data(),
            empty_data(),
        )
        .unwrap();
    let as_data = DataFile { doc_entry: out.index.doc_entry, entries: vec![] };
    let got = pull_by_uids(&as_data, &vec!["ox-db_init".to_string()]);
    assert_eq!(got.len(), 1);
    assert_eq!(got[0].data, PullData::Counter(1));
}

#[test]
fn pull_all_skips_the_reserved_record() {
    let mut log = fresh_log();
    let out = log
        .push(
            Some(vec!["hello".to_string()]),
            None,
            None,
            None,
            None,
            empty_index(),
            empty_data(),
            empty_data(),
        )
        .unwrap();
    let got = pull_all(&out.datafile);
    assert_eq!(got.len(), 1);
    assert_eq!(got[0].uid, out.uid);
    // An empty-but-present uid list beside another filter yields nothing.
    let nothing = log.pull(
        Some(None),
        Some(&"key".to_string()),
        None,
        None,
        &out.datafile,
        &out.index,
    );
    assert_eq!(nothing.len(), 0);
}

fn record(uid: &str, key: &str, time: &str, date: &str) -> IndexRecord {
    IndexRecord {
        uid: uid.to_string(),
        key: key.to_string(),
        doc: "doc".to_string(),
        time: time.to_string(),
        date: date.to_string(),
        vec_model: "vec.model".to_string(),
        description: None,
    }
}

#[test]
fn search_precedence_date_key_time() {
    let index = IndexFile {
        doc_entry: Some(2),
        records: vec![
            record("0-k1-x", "k1", "10:00:00_AM", "01_01_2024"),
            record("1-k2-y", "k2", "11:30:00_PM", "01_01_2024"),
        ],
    };
    // A date query returns both entries of that date.
    let by_date = search_uid(&index, None, None, Some(&"01_01_2024".to_string()));
    assert_eq!(by_date, vec!["0-k1-x".to_string(), "1-k2-y".to_string()]);
    // A key query returns only the entry with that key.
    let by_key = search_uid(&index, Some(&"k1".to_string()), None, None);
    assert_eq!(by_key, vec!["0-k1-x".to_string()]);
    // A time query matches only when hour:minute:second and AM/PM both match.
    let by_time = search_uid(&index, None, Some(&"11:30:00_PM".to_string()), None);
    assert_eq!(by_time, vec!["1-k2-y".to_string()]);
    // A time that splits in two but matches nothing beats a matching key.
    let shadowed = search_uid(
        &index,
        Some(&"k1".to_string()),
        Some(&"09:00:00_AM".to_string()),
        None,
    );
    assert_eq!(shadowed.len(), 0);
    // A time without exactly one underscore falls through to the key clause.
    let fell_through = search_uid(
        &index,
        Some(&"k1".to_string()),
        Some(&"09:00:00".to_string()),
        None,
    );
    assert_eq!(fell_through, vec!["0-k1-x".to_string()]);
}

#[test]
fn pull_by_date_returns_the_pushed_entry() {
    let mut log = fresh_log();
    let out = log
        .push_at(
            Some(vec!["dated".to_string()]),
            None,
            None,
            None,
            None,
            "10:00:00_AM".to_string(),
            "01_01_2024".to_string(),
            "s".repeat(36),
            empty_index(),
            empty_data(),
            empty_data(),
        )
        .unwrap();
    let got = log.pull(
        None,
        None,
        None,
        Some(&"01_01_2024".to_string()),
        &out.datafile,
        &out.index,
    );
    assert_eq!(got.len(), 1);
    assert_eq!(got[0].uid, out.uid);
    assert_eq!(got[0].data, PullData::Payload(vec!["dated".to_string()]));
}

#[test]
fn load_initializes_and_is_idempotent() {
    let (fresh, must_write) = load_data(RawContent::Absent);
    assert!(must_write);
    assert_eq!(fresh.doc_entry, Some(0));
    assert_eq!(fresh.entries.len(), 0);

    let (again, write_again) = load_data(RawContent::Parsed(fresh));
    assert!(!write_again);
    assert_eq!(again.doc_entry, Some(0));
    assert_eq!(again.entries.len(), 0);

    let (blank, w) = load_data(RawContent::Blank);
    assert!(w);
    assert_eq!(blank.doc_entry, Some(0));

    let (recovered, w2) = load_data(RawContent::Unparsable);
    assert!(!w2);
    assert_eq!(recovered.doc_entry, None);
    assert_eq!(recovered.entries.len(), 0);
}

#[test]
fn unparsable_ledger_freezes_the_counter() {
    let mut log = fresh_log();
    let (index, _) = load_index(RawContent::Unparsable);
    assert_eq!(index.doc_entry, None);
    let out = log
        .push(
            Some(vec!["x".to_string()]),
            None,
            None,
            None,
            None,
            index,
            empty_data(),
            empty_data(),
        )
        .unwrap();
    // Without the reserved record no counter is incremented.
    assert_eq!(out.index.doc_entry, None);
    assert_eq!(log.doc_entry, 0);
    assert_eq!(out.index.records.len(), 1);
}

#[test]
fn clock_and_suffix_shapes() {
    let mut log = fresh_log();
    let out = log
        .push(
            Some(vec!["x".to_string()]),
            None,
            Some(vec!["first".to_string(), "second".to_string()]),
            None,
            None,
            empty_index(),
            empty_data(),
            empty_data(),
        )
        .unwrap();
    let rec = &out.index.records[0];
    assert_eq!(rec.time.len(), 11);
    assert_eq!(rec.time.matches('_').count(), 1);
    assert!(rec.date.len() >= 10);
    assert_eq!(rec.key, "key");
    assert_eq!(rec.vec_model, "vec.model");
    assert_eq!(rec.description.as_deref(), Some("first, second"));
    assert_eq!(rec.uid, out.uid);
}

#[test]
fn file_names_and_paths() {
    let log = fresh_log();
    assert_eq!(index_file_name("mydoc"), "mydoc.index");
    assert_eq!(vec_file_name("mydoc"), "mydoc.ox-vec");
    assert_eq!(log.format_tag(), "bson");
    let path = log.get_logfile_path("mydoc.index");
    assert_eq!(
        path,
        format!("/tmp/oxdb-test/{}/mydoc.index.bson", log.doc)
    );
    assert!(log.doc.starts_with("log-["));
    assert!(log.doc.ends_with("]"));
    let resolved = log.resolve_doc(None).clone();
    assert_eq!(resolved, log.doc);
    let other = "other".to_string();
    assert_eq!(log.resolve_doc(Some(&other)), &other);
}

#[test]
fn default_root_is_under_the_home_directory() {
    match Log::new("example", None) {
        Ok(log) => {
            assert!(log.db_path.ends_with("/example.ox-db"));
            assert_eq!(log.db, "example");
        }
        Err(e) => assert_eq!(e, OxError::IOFailure),
    }
}

#[test]
fn pull_keeps_the_requested_order_and_repeats() {
    let mut log = fresh_log();
    let out1 = log
        .push(
            Some(vec!["a".to_string()]),
            None,
            None,
            None,
            None,
            empty_index(),
            empty_data(),
            empty_data(),
        )
        .unwrap();
    let out2 = log
        .push(
            Some(vec!["b".to_string()]),
            None,
            None,
            None,
            None,
            out1.index,
            out1.datafile,
            out1.vecfile,
        )
        .unwrap();
    let got = pull_by_uids(
        &out2.datafile,
        &vec![out2.uid.clone(), "missing".to_string(), out1.uid.clone(), out2.uid.clone()],
    );
    assert_eq!(got.len(), 3);
    assert_eq!(got[0].uid, out2.uid);
    assert_eq!(got[1].uid, out1.uid);
    assert_eq!(got[2].uid, out2.uid);
    assert_eq!(got[0].data, PullData::Payload(vec!["b".to_string()]));
    assert_eq!(got[1].data, PullData::Payload(vec!["a".to_string()]));
}

#[test]
fn json_format_changes_the_file_extension() {
    let mut log = fresh_log();
    log.doc_format = DocFormat::Json;
    log.set_doc(Some("day".to_string()));
    assert_eq!(log.format_tag(), "json");
    assert_eq!(
        log.get_logfile_path("day.ox-vec"),
        "/tmp/oxdb-test/day/day.ox-vec.json"
    );
}
