//! The key-value store port and its adapter over the `sled` embedded
//! database.
//!
//! The store maps byte strings to byte strings. Every write is flushed
//! before it returns, so that what a caller has been told is stored
//! survives a crash.

use std::sync::Arc;
use vstd::prelude::*;
use vstd::string::*;
use crate::ports::LoggerPort;

verus! {

/// The `sled` database handle. Nothing inside it is visible to proofs.
#[verifier::external_type_specification]
#[verifier::external_body]
pub struct ExDb(sled::Db);

/// The error type of `sled`. Nothing inside it is visible to proofs.
#[verifier::external_type_specification]
#[verifier::external_body]
pub struct ExSledError(sled::Error);

/// The key-value pairs that the default tree of a database holds.
pub uninterp spec fn db_contents(db: sled::Db) -> Map<Seq<u8>, Seq<u8>>;

/// The key-value pairs that a database would hold if the process stopped
/// here and the database were opened again.
pub uninterp spec fn db_durable(db: sled::Db) -> Map<Seq<u8>, Seq<u8>>;

/// The value stored under `key`, if there is one.
pub open spec fn lookup(contents: Map<Seq<u8>, Seq<u8>>, key: Seq<u8>) -> Option<Seq<u8>> {
    if contents.dom().contains(key) {
        Some(contents[key])
    } else {
        None
    }
}

/// An optional value, as contracts see it.
pub open spec fn bytes_view(value: Option<Vec<u8>>) -> Option<Seq<u8>> {
    match value {
        Some(bytes) => Some(bytes@),
        None => None,
    }
}

/// The operation of the store during which a failure came up.
#[derive(Clone, Copy, Debug, PartialEq, Eq, Structural)]
pub enum Stage {
    Open,
    Read,
    Write,
    Flush,
}

/// A failure of the store: where it came up, and what the database said.
#[derive(Clone, Debug, PartialEq, Eq)]
pub struct StoreError {
    pub stage: Stage,
    pub cause: String,
}

/// The words that name a stage in an error message.
pub open spec fn stage_text(stage: Stage) -> Seq<char> {
    match stage {
        Stage::Open => "open"@,
        Stage::Read => "read"@,
        Stage::Write => "write"@,
        Stage::Flush => "flush"@,
    }
}

impl StoreError {
    /// The error as a message for people: the stage, then the cause.
    pub fn describe(&self) -> (message: String)
        ensures
            message@ == "store "@ + stage_text(self.stage) + " failed: "@ + self.cause@,
    {
        let mut message = String::from_str("store ");
        message.append(
            match self.stage {
                Stage::Open => "open",
                Stage::Read => "read",
                Stage::Write => "write",
                Stage::Flush => "flush",
            },
        );
        message.append(" failed: ");
        message.append(self.cause.as_str());
        message
    }
}

/// The result of a store operation at `stage`, given what the database
/// answered: the answer itself, or the failure together with its stage.
pub fn settle<T>(stage: Stage, answer: Result<T, String>) -> (settled: Result<T, StoreError>)
    ensures
        match answer {
            Ok(value) => settled == Ok::<T, StoreError>(value),
            Err(cause) => settled == Err::<T, StoreError>(StoreError { stage, cause }),
        },
{
    match answer {
        Ok(value) => Ok(value),
        Err(cause) => Err(StoreError { stage, cause }),
    }
}

/// The result of a write, given the value that the key had before and
/// what the database answered to the flush that followed: the earlier
/// value once the flush went through, else the failure of the flush.
pub fn settle_flush(previous: Option<Vec<u8>>, flushed: Result<usize, String>) -> (settled: Result<
    Option<Vec<u8>>,
    StoreError,
>)
    ensures
        match flushed {
            Ok(_) => settled == Ok::<Option<Vec<u8>>, StoreError>(previous),
            Err(cause) => settled == Err::<Option<Vec<u8>>, StoreError>(
                StoreError { stage: Stage::Flush, cause },
            ),
        },
{
    match settle(Stage::Flush, flushed) {
        Ok(_) => Ok(previous),
        Err(error) => Err(error),
    }
}

/// Text of the line that reports an opened database.
pub open spec fn opened_text(path: Seq<char>) -> Seq<char> {
    "Database opened at path: "@ + path
}

/// The message that reports an opened database.
pub fn opened_message(path: &str) -> (message: String)
    ensures
        message@ == opened_text(path@),
{
    let mut message = String::from_str("Database opened at path: ");
    message.append(path);
    message
}

/// `sled::open`: opens the database in the directory at `path`, creating
/// it if it is not there. Nothing is claimed of the result, which depends
/// on what the directory holds.
#[verifier::external_body]
fn db_open(path: &str) -> Result<sled::Db, sled::Error> {
    sled::open(path)
}

/// `sled::Tree::insert` on the default tree: where it succeeds, the key
/// holds the new value, the other keys are as before, and the value that
/// the key had before is returned. Nothing is claimed where it fails.
#[verifier::external_body]
fn db_insert(db: &mut sled::Db, key: &[u8], value: &[u8]) -> (answer: Result<
    Option<Vec<u8>>,
    sled::Error,
>)
    ensures
        answer matches Ok(previous) ==> {
            &&& db_contents(*final(db)) == db_contents(*old(db)).insert(key@, value@)
            &&& bytes_view(previous) == lookup(db_contents(*old(db)), key@)
        },
{
    match db.insert(key, value) {
        Ok(Some(previous)) => Ok(Some(previous.to_vec())),
        Ok(None) => Ok(None),
        Err(error) => Err(error),
    }
}

/// `sled::Tree::get` on the default tree: where it succeeds, the value
/// stored under the key, if there is one.
#[verifier::external_body]
fn db_get(db: &sled::Db, key: &[u8]) -> (answer: Result<Option<Vec<u8>>, sled::Error>)
    ensures
        answer matches Ok(found) ==> bytes_view(found) == lookup(db_contents(*db), key@),
{
    match db.get(key) {
        Ok(Some(found)) => Ok(Some(found.to_vec())),
        Ok(None) => Ok(None),
        Err(error) => Err(error),
    }
}

/// `sled::Tree::remove` on the default tree: where it succeeds, the key
/// holds nothing, the other keys are as before, and the value that the key
/// had before is returned. Nothing is claimed where it fails.
#[verifier::external_body]
fn db_remove(db: &mut sled::Db, key: &[u8]) -> (answer: Result<Option<Vec<u8>>, sled::Error>)
    ensures
        answer matches Ok(previous) ==> {
            &&& db_contents(*final(db)) == db_contents(*old(db)).remove(key@)
            &&& bytes_view(previous) == lookup(db_contents(*old(db)), key@)
        },
{
    match db.remove(key) {
        Ok(Some(previous)) => Ok(Some(previous.to_vec())),
        Ok(None) => Ok(None),
        Err(error) => Err(error),
    }
}

/// `sled::Tree::flush`: leaves what the database holds as it is; where it
/// succeeds, all of it would be recovered after a crash.
#[verifier::external_body]
fn db_flush(db: &mut sled::Db) -> (answer: Result<usize, sled::Error>)
    ensures
        db_contents(*final(db)) == db_contents(*old(db)),
        answer is Ok ==> db_durable(*final(db)) == db_contents(*final(db)),
{
    db.flush()
}

/// The `Display` text of a `sled::Error`. Nothing is claimed of it: it may
/// hold what the operating system says of an I/O failure.
#[verifier::external_body]
fn error_text(error: &sled::Error) -> String {
    error.to_string()
}

fn in_words<T>(answer: Result<T, sled::Error>) -> (plain: Result<T, String>)
    ensures
        answer is Ok <==> plain is Ok,
        answer matches Ok(value) ==> plain == Ok::<T, String>(value),
{
    match answer {
        Ok(value) => Ok(value),
        Err(error) => Err(error_text(&error)),
    }
}

/// A durable map from byte strings to byte strings.
///
/// `contents` is what the store holds, `durable` what it would hold after
/// a crash. A write returns only once it has been flushed: after a
/// successful `insert` or `remove` the two agree.
pub trait DatabasePort {
    spec fn contents(&self) -> Map<Seq<u8>, Seq<u8>>;

    spec fn durable(&self) -> Map<Seq<u8>, Seq<u8>>;

    /// Stores `value` under `key` and returns the value that the key had
    /// before. Fails at stage `Write` if the database refuses the update,
    /// with nothing known of what it then holds, and at stage `Flush` if
    /// the update went through but could not be made durable.
    fn insert(&mut self, key: &[u8], value: &[u8]) -> (answer: Result<Option<Vec<u8>>, StoreError>)
        ensures
            answer matches Ok(previous) ==> {
                &&& final(self).contents() == old(self).contents().insert(key@, value@)
                &&& final(self).durable() == final(self).contents()
                &&& bytes_view(previous) == lookup(old(self).contents(), key@)
            },
            answer matches Err(error) ==> {
                &&& error.stage == Stage::Write || error.stage == Stage::Flush
                &&& error.stage == Stage::Flush ==> final(self).contents() == old(
                    self,
                ).contents().insert(key@, value@)
            },
    ;

    /// Returns the value stored under `key`, if there is one. Fails at
    /// stage `Read` if the database cannot be read.
    fn get(&self, key: &[u8]) -> (answer: Result<Option<Vec<u8>>, StoreError>)
        ensures
            answer matches Ok(found) ==> bytes_view(found) == lookup(self.contents(), key@),
            answer matches Err(error) ==> error.stage == Stage::Read,
    ;

    /// Removes what is stored under `key` and returns the value that the
    /// key had before. Fails as `insert` does.
    fn remove(&mut self, key: &[u8]) -> (answer: Result<Option<Vec<u8>>, StoreError>)
        ensures
            answer matches Ok(previous) ==> {
                &&& final(self).contents() == old(self).contents().remove(key@)
                &&& final(self).durable() == final(self).contents()
                &&& bytes_view(previous) == lookup(old(self).contents(), key@)
            },
            answer matches Err(error) ==> {
                &&& error.stage == Stage::Write || error.stage == Stage::Flush
                &&& error.stage == Stage::Flush ==> final(self).contents() == old(
                    self,
                ).contents().remove(key@)
            },
    ;
}

/// The store port over a `sled` database that the adapter alone holds.
pub struct DatabaseAdapter {
    db: sled::Db,
}

impl DatabaseAdapter {
    /// Opens the database in the directory at `path`, creating it if it
    /// is not there, and reports the opening to `logger`. Fails at stage
    /// `Open`, with nothing logged, if the database cannot be opened.
    pub fn new(path: &str, logger: Arc<dyn LoggerPort>) -> (opened: Result<Self, StoreError>)
        ensures
            opened matches Err(error) ==> error.stage == Stage::Open,
    {
        match settle(Stage::Open, in_words(db_open(path))) {
            Ok(db) => {
                logger.log_info(opened_message(path).as_str());
                Ok(DatabaseAdapter { db })
            },
            Err(error) => Err(error),
        }
    }
}

impl DatabasePort for DatabaseAdapter {
    closed spec fn contents(&self) -> Map<Seq<u8>, Seq<u8>> {
        db_contents(self.db)
    }

    closed spec fn durable(&self) -> Map<Seq<u8>, Seq<u8>> {
        db_durable(self.db)
    }

    fn insert(&mut self, key: &[u8], value: &[u8]) -> (answer: Result<Option<Vec<u8>>, StoreError>)
    {
        match settle(Stage::Write, in_words(db_insert(&mut self.db, key, value))) {
            Ok(previous) => settle_flush(previous, in_words(db_flush(&mut self.db))),
            Err(error) => Err(error),
        }
    }

    fn get(&self, key: &[u8]) -> (answer: Result<Option<Vec<u8>>, StoreError>) {
        settle(Stage::Read, in_words(db_get(&self.db, key)))
    }

    fn remove(&mut self, key: &[u8]) -> (answer: Result<Option<Vec<u8>>, StoreError>) {
        match settle(Stage::Write, in_words(db_remove(&mut self.db, key))) {
            Ok(previous) => settle_flush(previous, in_words(db_flush(&mut self.db))),
            Err(error) => Err(error),
        }
    }
}

/// What has been stored under a key is found there, and the store hands
/// back on the way what the key held before.
pub proof fn law_insert_then_get(contents: Map<Seq<u8>, Seq<u8>>, key: Seq<u8>, value: Seq<u8>)
    ensures
        lookup(contents.insert(key, value), key) == Some(value),
        forall|other: Seq<u8>|
            other != key ==> lookup(contents.insert(key, value), other) == lookup(contents, other),
{
}

/// What has been removed is found no more, and the other keys keep what
/// they hold.
pub proof fn law_remove_then_get(contents: Map<Seq<u8>, Seq<u8>>, key: Seq<u8>)
    ensures
        lookup(contents.remove(key), key) == None::<Seq<u8>>,
        forall|other: Seq<u8>|
            other != key ==> lookup(contents.remove(key), other) == lookup(contents, other),
{
}

} // verus!
