use std::sync::{Arc, Mutex};

use oneforall::ports::LoggerPort;
use oneforall::store::{
    opened_message, settle, settle_flush, DatabaseAdapter, DatabasePort, Stage, StoreError,
};

/// A logger that keeps what it is given.
struct Recorder {
    lines: Mutex<Vec<(String, String)>>,
}

impl Recorder {
    fn new() -> Arc<Recorder> {
        Arc::new(Recorder { lines: Mutex::new(Vec::new()) })
    }

    fn keep(&self, level: &str, message: &str) {
        self.lines.lock().unwrap().push((String::from(level), String::from(message)));
    }

    fn lines(&self) -> Vec<(String, String)> {
        self.lines.lock().unwrap().clone()
    }
}

impl LoggerPort for Recorder {
    fn log_info(&self, message: &str) {
        self.keep("info", message);
    }

    fn log_warn(&self, message: &str) {
        self.keep("warn", message);
    }

    fn log_error(&self, message: &str) {
        self.keep("error", message);
    }
}

fn open_in(dir: &tempfile::TempDir) -> DatabaseAdapter {
    let path = dir.path().join("db");
    DatabaseAdapter::new(path.to_str().unwrap(), Recorder::new()).expect("the store opens")
}

#[test]
fn insert_then_get_returns_the_value() {
    let dir = tempfile::tempdir().unwrap();
    let mut store = open_in(&dir);
    assert_eq!(store.insert(b"key", b"value"), Ok(None));
    assert_eq!(store.get(b"key"), Ok(Some(b"value".to_vec())));
    assert_eq!(store.get(b"other"), Ok(None));
}

#[test]
fn insert_returns_the_prior_value() {
    let dir = tempfile::tempdir().unwrap();
    let mut store = open_in(&dir);
    assert_eq!(store.insert(b"k", b"first"), Ok(None));
    assert_eq!(store.insert(b"k", b"second"), Ok(Some(b"first".to_vec())));
    assert_eq!(store.insert(b"k", b"second"), Ok(Some(b"second".to_vec())));
    assert_eq!(store.get(b"k"), Ok(Some(b"second".to_vec())));
}

#[test]
fn remove_then_get_returns_absent() {
    let dir = tempfile::tempdir().unwrap();
    let mut store = open_in(&dir);
    store.insert(b"k", b"v").unwrap();
    store.insert(b"stays", b"put").unwrap();
    assert_eq!(store.remove(b"k"), Ok(Some(b"v".to_vec())));
    assert_eq!(store.get(b"k"), Ok(None));
    assert_eq!(store.remove(b"k"), Ok(None));
    assert_eq!(store.get(b"stays"), Ok(Some(b"put".to_vec())));
}

#[test]
fn empty_keys_and_values_are_stored_like_any_other() {
    let dir = tempfile::tempdir().unwrap();
    let mut store = open_in(&dir);
    assert_eq!(store.insert(b"", b""), Ok(None));
    assert_eq!(store.get(b""), Ok(Some(Vec::new())));
    assert_eq!(store.insert(b"", &[0, 255]), Ok(Some(Vec::new())));
    assert_eq!(store.get(b""), Ok(Some(vec![0, 255])));
}

#[test]
fn what_was_inserted_is_there_after_reopening() {
    let dir = tempfile::tempdir().unwrap();
    {
        let mut store = open_in(&dir);
        store.insert(b"kept", b"safe").unwrap();
        store.insert(b"gone", b"soon").unwrap();
        store.remove(b"gone").unwrap();
    }
    let store = open_in(&dir);
    assert_eq!(store.get(b"kept"), Ok(Some(b"safe".to_vec())));
    assert_eq!(store.get(b"gone"), Ok(None));
}

#[test]
fn opening_creates_the_directory_and_reports_it() {
    let dir = tempfile::tempdir().unwrap();
    let path = dir.path().join("fresh").join("store");
    let path = path.to_str().unwrap();
    let recorder = Recorder::new();
    let store = DatabaseAdapter::new(path, recorder.clone());
    assert!(store.is_ok());
    assert!(dir.path().join("fresh").join("store").is_dir());
    assert_eq!(
        recorder.lines(),
        vec![(String::from("info"), format!("Database opened at path: {}", path))]
    );
}

#[test]
fn a_store_that_cannot_be_opened_fails_at_open_and_logs_nothing() {
    let file = tempfile::NamedTempFile::new().unwrap();
    let path = file.path().join("below-a-file");
    let recorder = Recorder::new();
    match DatabaseAdapter::new(path.to_str().unwrap(), recorder.clone()) {
        Ok(_) => panic!("a database cannot live below a plain file"),
        Err(error) => {
            assert_eq!(error.stage, Stage::Open);
            assert!(!error.cause.is_empty());
        }
    }
    assert!(recorder.lines().is_empty());
}

#[test]
fn answers_pass_through_and_failures_get_their_stage() {
    assert_eq!(settle(Stage::Read, Ok(Some(vec![1u8, 2]))), Ok(Some(vec![1u8, 2])));
    assert_eq!(settle::<Option<Vec<u8>>>(Stage::Read, Ok(None)), Ok(None));
    for stage in [Stage::Open, Stage::Read, Stage::Write, Stage::Flush] {
        assert_eq!(
            settle::<()>(stage, Err(String::from("IO error: disk on fire"))),
            Err(StoreError { stage, cause: String::from("IO error: disk on fire") })
        );
    }
}

#[test]
fn a_write_counts_only_once_flushed() {
    assert_eq!(settle_flush(Some(vec![7]), Ok(4096)), Ok(Some(vec![7])));
    assert_eq!(settle_flush(None, Ok(0)), Ok(None));
    assert_eq!(
        settle_flush(Some(vec![7]), Err(String::from("IO error: no space left"))),
        Err(StoreError { stage: Stage::Flush, cause: String::from("IO error: no space left") })
    );
}

#[test]
fn errors_describe_themselves() {
    let texts: Vec<String> = [Stage::Open, Stage::Read, Stage::Write, Stage::Flush]
        .iter()
        .map(|stage| StoreError { stage: *stage, cause: String::from("why") }.describe())
        .collect();
    assert_eq!(
        texts,
        vec![
            "store open failed: why",
            "store read failed: why",
            "store write failed: why",
            "store flush failed: why",
        ]
    );
}

#[test]
fn the_opening_message_names_the_path() {
    assert_eq!(opened_message("data/db"), "Database opened at path: data/db");
    assert_eq!(opened_message(""), "Database opened at path: ");
}
