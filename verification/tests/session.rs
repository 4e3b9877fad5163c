//! Whole sessions, driven against an engine in memory that keeps count of
//! everything it hands out.

use ldb_session::channel::Diagnostic;
use ldb_session::completion::{Completion, Step};
use ldb_session::database::Database;
use ldb_session::error::{EngineError, Operation};
use ldb_session::native::{Call, Reply};
use ldb_session::value::ValueBuffer;
use std::collections::HashMap;

#[derive(Clone, Copy, Debug, PartialEq, Eq)]
enum Kind {
    Database,
    Options,
    WriteOptions,
    WriteBatch,
    ReadOptions,
    Memory,
}

/// An engine in memory. It panics on a release of something that is not
/// allocated, and on a call with an object of the wrong kind.
struct Engine {
    next: usize,
    live: HashMap<usize, Kind>,
    allocated: usize,
    released: usize,
    create_if_missing: HashMap<usize, bool>,
    staged: HashMap<usize, Vec<(Vec<u8>, Vec<u8>)>>,
    paths: HashMap<usize, Vec<u8>>,
    records: HashMap<Vec<u8>, HashMap<Vec<u8>, Vec<u8>>>,
    refuse_open: Option<String>,
    refuse_write: Option<String>,
    refuse_get: Option<String>,
    calls: Vec<String>,
}

impl Engine {
    fn new() -> Engine {
        Engine {
            next: 0x1000,
            live: HashMap::new(),
            allocated: 0,
            released: 0,
            create_if_missing: HashMap::new(),
            staged: HashMap::new(),
            paths: HashMap::new(),
            records: HashMap::new(),
            refuse_open: None,
            refuse_write: None,
            refuse_get: None,
            calls: Vec::new(),
        }
    }

    fn allocate(&mut self, kind: Kind) -> usize {
        let address: usize = self.next;
        self.next += 16;
        self.live.insert(address, kind);
        self.allocated += 1;
        address
    }

    fn release(&mut self, address: usize, kind: Kind) {
        assert_eq!(self.live.remove(&address), Some(kind), "released what is not allocated");
        self.released += 1;
    }

    fn holds(&self, address: usize, kind: Kind) {
        assert_eq!(self.live.get(&address), Some(&kind), "used what is not allocated");
    }

    fn message(&mut self, text: &str) -> Option<Diagnostic> {
        let address: usize = self.allocate(Kind::Memory);
        Some(Diagnostic { address, text: text.to_string() })
    }

    fn perform(&mut self, call: Call) -> Reply {
        self.calls.push(format!("{:?}", call));
        match call {
            Call::OptionsCreate => {
                let handle: usize = self.allocate(Kind::Options);
                self.create_if_missing.insert(handle, false);
                Reply::Object { handle }
            }
            Call::OptionsSetCreateIfMissing { options, enabled } => {
                self.holds(options, Kind::Options);
                self.create_if_missing.insert(options, enabled);
                Reply::Returned
            }
            Call::OptionsDestroy { options } => {
                self.release(options, Kind::Options);
                Reply::Returned
            }
            Call::Open { options, path } => {
                self.holds(options, Kind::Options);
                if let Some(text) = self.refuse_open.clone() {
                    return Reply::Opened { database: 0, error: self.message(&text) };
                }
                if !self.records.contains_key(&path) {
                    if !self.create_if_missing[&options] {
                        let error = self.message("Invalid argument: does not exist");
                        return Reply::Opened { database: 0, error };
                    }
                    self.records.insert(path.clone(), HashMap::new());
                }
                let database: usize = self.allocate(Kind::Database);
                self.paths.insert(database, path);
                Reply::Opened { database, error: None }
            }
            Call::Close { database } => {
                self.release(database, Kind::Database);
                Reply::Returned
            }
            Call::WriteOptionsCreate => Reply::Object { handle: self.allocate(Kind::WriteOptions) },
            Call::WriteOptionsDestroy { options } => {
                self.release(options, Kind::WriteOptions);
                Reply::Returned
            }
            Call::WriteBatchCreate => {
                let handle: usize = self.allocate(Kind::WriteBatch);
                self.staged.insert(handle, Vec::new());
                Reply::Object { handle }
            }
            Call::WriteBatchPut { batch, key, value } => {
                self.holds(batch, Kind::WriteBatch);
                self.staged.get_mut(&batch).unwrap().push((key, value));
                Reply::Returned
            }
            Call::WriteBatchDestroy { batch } => {
                self.release(batch, Kind::WriteBatch);
                self.staged.remove(&batch);
                Reply::Returned
            }
            Call::Write { database, options, batch } => {
                self.holds(database, Kind::Database);
                self.holds(options, Kind::WriteOptions);
                self.holds(batch, Kind::WriteBatch);
                if let Some(text) = self.refuse_write.clone() {
                    return Reply::Written { error: self.message(&text) };
                }
                let path = self.paths[&database].clone();
                let records = self.records.get_mut(&path).unwrap();
                for (key, value) in self.staged[&batch].iter() {
                    records.insert(key.clone(), value.clone());
                }
                Reply::Written { error: None }
            }
            Call::ReadOptionsCreate => Reply::Object { handle: self.allocate(Kind::ReadOptions) },
            Call::ReadOptionsDestroy { options } => {
                self.release(options, Kind::ReadOptions);
                Reply::Returned
            }
            Call::Get { database, options, key } => {
                self.holds(database, Kind::Database);
                self.holds(options, Kind::ReadOptions);
                if let Some(text) = self.refuse_get.clone() {
                    return Reply::Fetched { value: None, error: self.message(&text) };
                }
                let found = self.records[&self.paths[&database]].get(&key).cloned();
                match found {
                    Some(bytes) => {
                        let address: usize = self.allocate(Kind::Memory);
                        Reply::Fetched { value: Some(ValueBuffer { address, bytes }), error: None }
                    }
                    None => Reply::Fetched { value: None, error: None },
                }
            }
            Call::Free { address } => {
                self.release(address, Kind::Memory);
                Reply::Returned
            }
        }
    }

    fn count(&self, kind: Kind) -> usize {
        self.live.values().filter(|held| **held == kind).count()
    }
}

/// Performs the calls of one operation until the session is done.
fn drive(database: &mut Database, engine: &mut Engine, first: Call) -> Completion {
    let mut call = first;
    loop {
        let reply = engine.perform(call);
        assert!(database.accepts(&reply));
        match database.resume(reply) {
            Step::Call(next) => call = next,
            Step::Done(completion) => return completion,
        }
    }
}

fn open(engine: &mut Engine, path: &str) -> Result<Database, EngineError> {
    let (mut database, call) = Database::open_or_create(path.as_bytes().to_vec());
    match drive(&mut database, engine, call) {
        Completion::Opened(Ok(())) => Ok(database),
        Completion::Opened(Err(error)) => {
            assert!(!database.is_ready());
            Err(error)
        }
        other => panic!("an open ended with {:?}", other),
    }
}

fn write(
    database: &mut Database,
    engine: &mut Engine,
    key: &[u8],
    value: &[u8],
) -> Result<(), EngineError> {
    assert!(database.is_ready());
    let call = database.write(key.to_vec(), value.to_vec());
    match drive(database, engine, call) {
        Completion::Written(result) => result,
        other => panic!("a write ended with {:?}", other),
    }
}

/// Looks a key up, copies the bytes and releases the value.
fn read(
    database: &mut Database,
    engine: &mut Engine,
    key: &[u8],
) -> Result<Option<Vec<u8>>, EngineError> {
    assert!(database.is_ready());
    let call = database.read(key.to_vec());
    match drive(database, engine, call) {
        Completion::Read(Ok(Some(buffer))) => {
            let bytes = buffer.as_bytes().clone();
            engine.perform(buffer.release().call());
            Ok(Some(bytes))
        }
        Completion::Read(Ok(None)) => Ok(None),
        Completion::Read(Err(error)) => Err(error),
        other => panic!("a lookup ended with {:?}", other),
    }
}

fn close(mut database: Database, engine: &mut Engine) {
    assert!(database.is_ready());
    let call = database.close();
    assert_eq!(drive(&mut database, engine, call), Completion::Closed);
    assert!(database.is_closed());
    assert!(!database.is_ready());
}

#[test]
fn create_write_read() {
    let mut engine = Engine::new();
    let mut db = open(&mut engine, "src/data.db").unwrap();
    write(&mut db, &mut engine, b"key", b"val").unwrap();
    assert!(read(&mut db, &mut engine, b"key").unwrap().unwrap() == b"val");
    assert!(read(&mut db, &mut engine, b"wrong").unwrap().is_none());
}

#[test]
fn write_then_read_on_db1() {
    let mut engine = Engine::new();
    let mut db = open(&mut engine, "db1").unwrap();
    assert_eq!(write(&mut db, &mut engine, b"key", b"val"), Ok(()));
    assert_eq!(read(&mut db, &mut engine, b"key"), Ok(Some(b"val".to_vec())));
    assert_eq!(read(&mut db, &mut engine, b"wrong"), Ok(None));
    close(db, &mut engine);
    assert!(engine.live.is_empty());
}

#[test]
fn open_asks_for_its_calls_in_order() {
    let mut engine = Engine::new();
    let db = open(&mut engine, "db1").unwrap();
    assert_eq!(
        engine.calls,
        vec![
            "OptionsCreate".to_string(),
            "OptionsSetCreateIfMissing { options: 4096, enabled: true }".to_string(),
            "Open { options: 4096, path: [100, 98, 49] }".to_string(),
            "OptionsDestroy { options: 4096 }".to_string(),
        ]
    );
    assert!(db.is_open());
    assert!(db.is_idle());
    assert_eq!(db.path(), Some(&b"db1".to_vec()));
    assert_eq!(engine.count(Kind::Database), 1);
    assert_eq!(engine.live.len(), 1);
}

#[test]
fn open_steps_one_by_one() {
    let (mut db, call) = Database::open_or_create(b"p".to_vec());
    assert_eq!(call, Call::OptionsCreate);
    assert!(!db.is_open());
    assert!(!db.is_idle());
    assert_eq!(db.path(), None);
    assert_eq!(
        db.resume(Reply::Object { handle: 7 }),
        Step::Call(Call::OptionsSetCreateIfMissing { options: 7, enabled: true })
    );
    assert_eq!(
        db.resume(Reply::Returned),
        Step::Call(Call::Open { options: 7, path: b"p".to_vec() })
    );
    assert_eq!(
        db.resume(Reply::Opened { database: 9, error: None }),
        Step::Call(Call::OptionsDestroy { options: 7 })
    );
    assert!(db.is_open());
    assert!(!db.is_ready());
    assert_eq!(db.resume(Reply::Returned), Step::Done(Completion::Opened(Ok(()))));
    assert!(db.is_ready());
}

#[test]
fn refused_open_gives_open_failed() {
    let mut engine = Engine::new();
    engine.refuse_open = Some("IO error: /root/db1/LOCK: Permission denied".to_string());
    let error = open(&mut engine, "/root/db1").unwrap_err();
    assert_eq!(
        error,
        EngineError::OpenFailed("IO error: /root/db1/LOCK: Permission denied".to_string())
    );
    assert!(!error.message().is_empty());
    assert_eq!(error.operation(), Operation::Open);
    assert!(engine.live.is_empty());
    assert_eq!(engine.allocated, 2);
    assert_eq!(engine.released, 2);
}

#[test]
fn failed_open_frees_the_message_then_destroys_the_options() {
    let (mut db, _) = Database::open_or_create(b"p".to_vec());
    db.resume(Reply::Object { handle: 7 });
    db.resume(Reply::Returned);
    let refused = Reply::Opened {
        database: 0,
        error: Some(Diagnostic { address: 5, text: "Corruption".to_string() }),
    };
    assert!(db.accepts(&refused));
    assert_eq!(db.resume(refused), Step::Call(Call::Free { address: 5 }));
    assert_eq!(db.resume(Reply::Returned), Step::Call(Call::OptionsDestroy { options: 7 }));
    assert_eq!(
        db.resume(Reply::Returned),
        Step::Done(Completion::Opened(Err(EngineError::OpenFailed("Corruption".to_string()))))
    );
    assert!(db.is_idle());
    assert!(!db.is_open());
    assert!(!db.is_closed());
    assert!(!db.is_ready());
    assert!(!db.accepts(&Reply::Returned));
}

#[test]
fn write_asks_for_its_calls_in_order() {
    let mut engine = Engine::new();
    let mut db = open(&mut engine, "db1").unwrap();
    engine.calls.clear();
    write(&mut db, &mut engine, b"k", b"v").unwrap();
    assert_eq!(
        engine.calls,
        vec![
            "WriteOptionsCreate".to_string(),
            "WriteBatchCreate".to_string(),
            "WriteBatchPut { batch: 4144, key: [107], value: [118] }".to_string(),
            "Write { database: 4112, options: 4128, batch: 4144 }".to_string(),
            "WriteBatchDestroy { batch: 4144 }".to_string(),
            "WriteOptionsDestroy { options: 4128 }".to_string(),
        ]
    );
    assert_eq!(engine.live.len(), 1);
    assert!(db.is_ready());
}

#[test]
fn write_failure_carries_the_engine_text() {
    let mut engine = Engine::new();
    let mut db = open(&mut engine, "db1").unwrap();
    engine.refuse_write = Some("IO error: No space left on device".to_string());
    engine.calls.clear();
    let error = write(&mut db, &mut engine, b"k", b"v").unwrap_err();
    assert_eq!(error, EngineError::WriteFailed("IO error: No space left on device".to_string()));
    assert_eq!(error.message(), "IO error: No space left on device");
    assert_eq!(error.operation(), Operation::Write);
    assert_eq!(
        engine.calls[4..].to_vec(),
        vec![
            "Free { address: 4160 }".to_string(),
            "WriteBatchDestroy { batch: 4144 }".to_string(),
            "WriteOptionsDestroy { options: 4128 }".to_string(),
        ]
    );
    assert_eq!(engine.live.len(), 1);
    assert!(db.is_ready());
    engine.refuse_write = None;
    assert_eq!(write(&mut db, &mut engine, b"k", b"v"), Ok(()));
    assert_eq!(read(&mut db, &mut engine, b"k"), Ok(Some(b"v".to_vec())));
}

#[test]
fn read_asks_for_its_calls_in_order() {
    let mut engine = Engine::new();
    let mut db = open(&mut engine, "db1").unwrap();
    write(&mut db, &mut engine, b"k", b"v").unwrap();
    engine.calls.clear();
    let call = db.read(b"k".to_vec());
    let completion = drive(&mut db, &mut engine, call);
    assert_eq!(
        engine.calls,
        vec![
            "ReadOptionsCreate".to_string(),
            "Get { database: 4112, options: 4160, key: [107] }".to_string(),
            "ReadOptionsDestroy { options: 4160 }".to_string(),
        ]
    );
    let buffer = match completion {
        Completion::Read(Ok(Some(buffer))) => buffer,
        other => panic!("the lookup ended with {:?}", other),
    };
    assert_eq!(buffer, ValueBuffer { address: 4176, bytes: b"v".to_vec() });
    assert_eq!(buffer.len(), 1);
    assert!(!buffer.is_empty());
    assert_eq!(engine.count(Kind::Memory), 1);
    assert_eq!(buffer.release().call(), Call::Free { address: 4176 });
}

#[test]
fn value_belongs_to_the_caller_until_released() {
    let mut engine = Engine::new();
    let mut db = open(&mut engine, "db1").unwrap();
    write(&mut db, &mut engine, b"k", b"value").unwrap();
    let call = db.read(b"k".to_vec());
    let buffer = match drive(&mut db, &mut engine, call) {
        Completion::Read(Ok(Some(buffer))) => buffer,
        other => panic!("the lookup ended with {:?}", other),
    };
    assert!(db.is_ready());
    assert_eq!(engine.live.get(&buffer.address), Some(&Kind::Memory));
    assert_eq!(buffer.as_bytes(), &b"value".to_vec());
    let release = buffer.release().call();
    engine.perform(release);
    assert_eq!(engine.count(Kind::Memory), 0);
    assert_eq!(engine.live.len(), 1);
}

#[test]
fn read_failure_carries_the_engine_text() {
    let mut engine = Engine::new();
    let mut db = open(&mut engine, "db1").unwrap();
    write(&mut db, &mut engine, b"k", b"v").unwrap();
    engine.refuse_get = Some("Corruption: block checksum mismatch".to_string());
    let error = read(&mut db, &mut engine, b"k").unwrap_err();
    assert_eq!(error, EngineError::ReadFailed("Corruption: block checksum mismatch".to_string()));
    assert_eq!(error.operation(), Operation::Read);
    assert_eq!(engine.live.len(), 1);
    assert!(db.is_ready());
}

#[test]
fn read_failure_wins_over_a_value_and_frees_it() {
    let (mut db, _) = Database::open_or_create(b"p".to_vec());
    db.resume(Reply::Object { handle: 7 });
    db.resume(Reply::Returned);
    db.resume(Reply::Opened { database: 9, error: None });
    db.resume(Reply::Returned);
    assert_eq!(db.read(b"k".to_vec()), Call::ReadOptionsCreate);
    assert_eq!(
        db.resume(Reply::Object { handle: 11 }),
        Step::Call(Call::Get { database: 9, options: 11, key: b"k".to_vec() })
    );
    let both = Reply::Fetched {
        value: Some(ValueBuffer { address: 13, bytes: b"stale".to_vec() }),
        error: Some(Diagnostic { address: 15, text: "IO error".to_string() }),
    };
    assert_eq!(db.resume(both), Step::Call(Call::Free { address: 13 }));
    assert_eq!(db.resume(Reply::Returned), Step::Call(Call::Free { address: 15 }));
    assert_eq!(db.resume(Reply::Returned), Step::Call(Call::ReadOptionsDestroy { options: 11 }));
    assert_eq!(
        db.resume(Reply::Returned),
        Step::Done(Completion::Read(Err(EngineError::ReadFailed("IO error".to_string()))))
    );
    assert!(db.is_ready());
}

#[test]
fn unwritten_key_reads_absent() {
    let mut engine = Engine::new();
    let mut db = open(&mut engine, "db1").unwrap();
    assert_eq!(read(&mut db, &mut engine, b"never"), Ok(None));
    write(&mut db, &mut engine, b"other", b"v").unwrap();
    assert_eq!(read(&mut db, &mut engine, b"never"), Ok(None));
    assert_eq!(read(&mut db, &mut engine, b""), Ok(None));
}

#[test]
fn last_write_wins() {
    let mut engine = Engine::new();
    let mut db = open(&mut engine, "db1").unwrap();
    write(&mut db, &mut engine, b"key", b"first").unwrap();
    write(&mut db, &mut engine, b"key", b"second").unwrap();
    assert_eq!(read(&mut db, &mut engine, b"key"), Ok(Some(b"second".to_vec())));
}

#[test]
fn empty_value_reads_absent() {
    let mut engine = Engine::new();
    let mut db = open(&mut engine, "db1").unwrap();
    write(&mut db, &mut engine, b"key", b"").unwrap();
    engine.calls.clear();
    assert_eq!(read(&mut db, &mut engine, b"key"), Ok(None));
    assert_eq!(
        engine.calls,
        vec![
            "ReadOptionsCreate".to_string(),
            "Get { database: 4112, options: 4160, key: [107, 101, 121] }".to_string(),
            "Free { address: 4176 }".to_string(),
            "ReadOptionsDestroy { options: 4160 }".to_string(),
        ]
    );
    assert_eq!(engine.live.len(), 1);
}

#[test]
fn keys_and_values_are_bytes_of_any_content() {
    let mut engine = Engine::new();
    let mut db = open(&mut engine, "db1").unwrap();
    let key: Vec<u8> = vec![0, 255, 0, 10, 107];
    let value: Vec<u8> = vec![0, 0, 128, 255, 0];
    write(&mut db, &mut engine, &key, &value).unwrap();
    assert_eq!(read(&mut db, &mut engine, &key), Ok(Some(value)));
    assert_eq!(read(&mut db, &mut engine, &[0, 255]), Ok(None));
    let single: Vec<u8> = vec![0];
    write(&mut db, &mut engine, &single, &single).unwrap();
    assert_eq!(read(&mut db, &mut engine, &single), Ok(Some(vec![0])));
}

#[test]
fn reopening_a_path_finds_what_was_written() {
    let mut engine = Engine::new();
    let mut db = open(&mut engine, "db1").unwrap();
    write(&mut db, &mut engine, b"key", b"val").unwrap();
    close(db, &mut engine);
    let mut other = open(&mut engine, "db2").unwrap();
    assert_eq!(read(&mut other, &mut engine, b"key"), Ok(None));
    close(other, &mut engine);
    let mut again = open(&mut engine, "db1").unwrap();
    assert_eq!(again.path(), Some(&b"db1".to_vec()));
    assert_eq!(read(&mut again, &mut engine, b"key"), Ok(Some(b"val".to_vec())));
    close(again, &mut engine);
    assert!(engine.live.is_empty());
}

#[test]
fn close_asks_for_the_close_once() {
    let mut engine = Engine::new();
    let mut db = open(&mut engine, "db1").unwrap();
    engine.calls.clear();
    assert_eq!(db.close(), Call::Close { database: 4112 });
    assert!(db.is_closed());
    assert!(!db.is_open());
    assert!(!db.is_idle());
    assert_eq!(db.path(), None);
    assert!(!db.accepts(&Reply::Object { handle: 1 }));
    assert!(db.accepts(&Reply::Returned));
    assert_eq!(db.resume(Reply::Returned), Step::Done(Completion::Closed));
    assert!(db.is_closed());
    assert!(db.is_idle());
    assert!(!db.is_ready());
    assert!(!db.accepts(&Reply::Returned));
}

#[test]
fn a_thousand_sessions_leak_nothing() {
    let mut engine = Engine::new();
    let mut cycle: u32 = 0;
    while cycle < 1000 {
        let mut db = open(&mut engine, "db1").unwrap();
        write(&mut db, &mut engine, b"key", b"val").unwrap();
        assert_eq!(read(&mut db, &mut engine, b"key"), Ok(Some(b"val".to_vec())));
        assert_eq!(read(&mut db, &mut engine, b"none"), Ok(None));
        assert_eq!(engine.live.len(), 1);
        close(db, &mut engine);
        assert!(engine.live.is_empty());
        cycle += 1;
    }
    assert_eq!(engine.allocated, 7000);
    assert_eq!(engine.released, 7000);
}

#[test]
fn a_thousand_refused_opens_leak_nothing() {
    let mut engine = Engine::new();
    engine.refuse_open = Some("IO error: lock".to_string());
    let mut cycle: u32 = 0;
    while cycle < 1000 {
        assert_eq!(
            open(&mut engine, "db1").unwrap_err(),
            EngineError::OpenFailed("IO error: lock".to_string())
        );
        assert!(engine.live.is_empty());
        cycle += 1;
    }
    assert_eq!(engine.allocated, 2000);
    assert_eq!(engine.released, 2000);
}

#[test]
fn failures_leak_nothing() {
    let mut engine = Engine::new();
    let mut db = open(&mut engine, "db1").unwrap();
    engine.refuse_write = Some("IO error".to_string());
    engine.refuse_get = Some("Corruption".to_string());
    let mut cycle: u32 = 0;
    while cycle < 100 {
        assert!(write(&mut db, &mut engine, b"k", b"v").is_err());
        assert!(read(&mut db, &mut engine, b"k").is_err());
        assert_eq!(engine.live.len(), 1);
        cycle += 1;
    }
    close(db, &mut engine);
    assert!(engine.live.is_empty());
    assert_eq!(engine.allocated, engine.released);
}

#[test]
fn a_reply_of_the_wrong_form_is_not_accepted() {
    let (mut db, _) = Database::open_or_create(b"p".to_vec());
    assert!(!db.accepts(&Reply::Returned));
    assert!(!db.accepts(&Reply::Opened { database: 9, error: None }));
    assert!(!db.accepts(&Reply::Written { error: None }));
    assert!(!db.accepts(&Reply::Fetched { value: None, error: None }));
    assert!(!db.accepts(&Reply::Object { handle: 0 }));
    assert!(db.accepts(&Reply::Object { handle: 7 }));
    db.resume(Reply::Object { handle: 7 });
    assert!(!db.accepts(&Reply::Object { handle: 8 }));
    assert!(db.accepts(&Reply::Returned));
    db.resume(Reply::Returned);
    assert!(!db.accepts(&Reply::Returned));
    assert!(!db.accepts(&Reply::Opened { database: 0, error: None }));
    assert!(!db.accepts(&Reply::Opened {
        database: 9,
        error: Some(Diagnostic { address: 5, text: "late".to_string() }),
    }));
    assert!(!db.accepts(&Reply::Opened {
        database: 0,
        error: Some(Diagnostic { address: 0, text: "nowhere".to_string() }),
    }));
    assert!(db.accepts(&Reply::Opened { database: 9, error: None }));
}

#[test]
fn a_write_and_a_lookup_accept_their_replies_only() {
    let mut engine = Engine::new();
    let mut db = open(&mut engine, "db1").unwrap();
    assert!(!db.accepts(&Reply::Returned));
    db.write(b"k".to_vec(), b"v".to_vec());
    assert!(!db.is_ready());
    assert!(db.is_open());
    assert!(!db.accepts(&Reply::Returned));
    db.resume(Reply::Object { handle: 21 });
    assert!(!db.accepts(&Reply::Object { handle: 0 }));
    db.resume(Reply::Object { handle: 23 });
    assert!(!db.accepts(&Reply::Written { error: None }));
    db.resume(Reply::Returned);
    assert!(!db.accepts(&Reply::Returned));
    assert!(!db.accepts(&Reply::Written {
        error: Some(Diagnostic { address: 0, text: "nowhere".to_string() }),
    }));
    assert!(db.accepts(&Reply::Written { error: None }));
    db.resume(Reply::Written { error: None });
    db.resume(Reply::Returned);
    assert_eq!(db.resume(Reply::Returned), Step::Done(Completion::Written(Ok(()))));
    db.read(b"k".to_vec());
    db.resume(Reply::Object { handle: 25 });
    assert!(!db.accepts(&Reply::Written { error: None }));
    assert!(!db.accepts(&Reply::Fetched {
        value: Some(ValueBuffer { address: 0, bytes: vec![1] }),
        error: None,
    }));
    assert!(db.accepts(&Reply::Fetched { value: None, error: None }));
}
