//! Loading and saving the collection.
//!
//! A load is one decision on what the host found where the file is kept. A save
//! is a short exchange with the host: create the directory, then write the
//! text, and stop at the first step that fails.

use crate::error::{
    host_outcome, io_failure, outcome_view, report_view, ErrorKind, Failure, StoreError,
};
use crate::json::{
    empty_array, error_message, json_error_text, json_parse, json_pretty, parse_json, pretty_json,
};
use crate::location::StorageLocation;
use serde_json::Value;
use vstd::prelude::*;

verus! {

/// What the host found where the collection is kept.
#[derive(Debug, PartialEq, Eq)]
pub enum Stored {
    /// There is no file.
    Missing,
    /// There is a file, and what it holds is not text. The message is the
    /// host's description of that.
    NotText(String),
    /// There is a file, and the host could not read it. The message is the
    /// host's description of why.
    Unreadable(String),
    /// There is a file, and this is the whole of its text.
    Text(String),
}

/// What the host found, as contracts see it.
pub enum StoredView {
    Missing,
    NotText(Seq<char>),
    Unreadable(Seq<char>),
    Text(Seq<char>),
}

impl View for Stored {
    type V = StoredView;

    open spec fn view(&self) -> StoredView {
        match self {
            Stored::Missing => StoredView::Missing,
            Stored::NotText(message) => StoredView::NotText(message@),
            Stored::Unreadable(message) => StoredView::Unreadable(message@),
            Stored::Text(text) => StoredView::Text(text@),
        }
    }
}

/// The text of an array without contacts.
pub open spec fn absent_text() -> Seq<char> {
    "[]"@
}

/// The collection without contacts: the value that the text `[]` parses to.
pub open spec fn empty_collection() -> Value {
    json_parse(absent_text())->Ok_0
}

/// What a load yields from what the host found.
///
/// Only a file that does not exist counts as a store without contacts. A file
/// that exists must hold JSON text: one that holds no text is a `Parse`
/// failure, one that could not be read is an `Io` failure, each with the host's
/// message, and text that is not JSON is a `Parse` failure with the parser's.
pub open spec fn loaded(stored: StoredView) -> Result<Value, Failure> {
    match stored {
        StoredView::Missing => Ok(empty_collection()),
        StoredView::NotText(message) => Err(Failure { kind: ErrorKind::Parse, message }),
        StoredView::Unreadable(message) => Err(io_failure(message)),
        StoredView::Text(text) => match json_parse(text) {
            Ok(collection) => Ok(collection),
            Err(error) => Err(
                Failure { kind: ErrorKind::Parse, message: json_error_text(error) },
            ),
        },
    }
}

/// Decides what a load returns from what the host found.
///
/// A missing file is no failure: the store then holds no contacts. A file that
/// exists and cannot be read, or does not hold text, is a failure, so that a
/// store that was never written is told apart from one that is damaged. Text
/// must be JSON, and any JSON is handed back as it parses.
pub fn load_contacts(stored: Stored) -> (outcome: Result<Value, StoreError>)
    ensures
        outcome_view(outcome) == loaded(stored@),
        stored is Missing ==> outcome is Ok,
{
    match stored {
        Stored::Missing => Ok(empty_array()),
        Stored::NotText(message) => Err(StoreError { kind: ErrorKind::Parse, message }),
        Stored::Unreadable(message) => Err(StoreError::io(message)),
        Stored::Text(text) => match parse_json(text.as_str()) {
            Ok(collection) => Ok(collection),
            Err(error) => Err(StoreError { kind: ErrorKind::Parse, message: error_message(&error) }),
        },
    }
}

/// A save that waits for the host to create the directory `location.dir`
/// together with every ancestor of it that is missing.
#[derive(Debug, PartialEq)]
pub struct SaveDirectory {
    pub location: StorageLocation,
    pub contacts: Value,
}

/// A save that waits for the host to write `text` to the file at `location`,
/// in place of whatever the file held.
#[derive(Debug, PartialEq, Eq)]
pub struct SaveWrite {
    pub location: StorageLocation,
    pub text: String,
}

/// The text that a save hands over for writing once the host has reported on
/// the directory, or the failure that ends the save there.
pub open spec fn text_to_write(contacts: Value, created: Result<(), Seq<char>>) -> Result<
    Seq<char>,
    Failure,
> {
    match created {
        Err(message) => Err(io_failure(message)),
        Ok(_) => match json_pretty(contacts) {
            Ok(text) => Ok(text),
            Err(error) => Err(
                Failure { kind: ErrorKind::Serialization, message: json_error_text(error) },
            ),
        },
    }
}

/// A write that a save asks for, as contracts see it.
pub struct WriteView {
    pub location: StorageLocation,
    pub text: Seq<char>,
}

impl View for SaveWrite {
    type V = WriteView;

    open spec fn view(&self) -> WriteView {
        WriteView { location: self.location, text: self.text@ }
    }
}

/// What a step of a save came to: the write that it asks for, or the failure
/// that it ended with.
pub open spec fn handed_over(next: Result<SaveWrite, StoreError>) -> Result<WriteView, Failure> {
    match next {
        Ok(write) => Ok(write@),
        Err(error) => Err(error@),
    }
}

/// What a save does once the host has reported on the directory: the write of
/// the pretty-printed collection to the same location, or the failure that
/// ends the save there.
pub open spec fn after_directory(
    location: StorageLocation,
    contacts: Value,
    created: Result<(), Seq<char>>,
) -> Result<WriteView, Failure> {
    match text_to_write(contacts, created) {
        Ok(text) => Ok(WriteView { location, text }),
        Err(failure) => Err(failure),
    }
}

/// How a whole save ends, from what the host reported of its two steps. The
/// report on the write counts only where a write was asked for.
pub open spec fn saved(
    contacts: Value,
    created: Result<(), Seq<char>>,
    written: Result<(), Seq<char>>,
) -> Result<(), Failure> {
    match text_to_write(contacts, created) {
        Ok(_) => host_outcome(written),
        Err(failure) => Err(failure),
    }
}

/// Starts a save of `contacts` at `location`. Nothing is written yet: the first
/// thing asked of the host is the directory.
pub fn save_contacts(location: StorageLocation, contacts: Value) -> (pending: SaveDirectory)
    ensures
        pending.location == location,
        pending.contacts == contacts,
{
    SaveDirectory { location, contacts }
}

impl SaveDirectory {
    /// Goes on after the host tried to create the directory.
    ///
    /// If the host failed, the save ends with its report as an `Io` failure and
    /// no write is asked for. Otherwise the collection is turned into
    /// pretty-printed JSON and that text is handed over for writing to the same
    /// location; a collection that cannot be printed ends the save with a
    /// `Serialization` failure.
    pub fn created(self, outcome: Result<(), String>) -> (next: Result<SaveWrite, StoreError>)
        ensures
            next is Ok ==> outcome is Ok,
            handed_over(next) == after_directory(
                self.location,
                self.contacts,
                report_view(outcome),
            ),
    {
        match outcome {
            Err(message) => Err(StoreError::io(message)),
            Ok(_) => match pretty_json(&self.contacts) {
                Ok(text) => Ok(SaveWrite { location: self.location, text }),
                Err(error) => Err(
                    StoreError { kind: ErrorKind::Serialization, message: error_message(&error) },
                ),
            },
        }
    }
}

impl SaveWrite {
    /// Ends the save after the host tried to write the text: success, or the
    /// host's report as an `Io` failure.
    pub fn written(self, outcome: Result<(), String>) -> (done: Result<(), StoreError>)
        ensures
            outcome_view(done) == host_outcome(report_view(outcome)),
    {
        StoreError::from_host(outcome)
    }
}

/// A save of `contacts` whose directory was created hands over `text` for
/// writing.
pub open spec fn saves_as(contacts: Value, text: Seq<char>) -> bool {
    text_to_write(contacts, Ok(())) == Ok::<Seq<char>, Failure>(text)
}

/// The JSON codec restores `contacts` from `text`.
pub open spec fn restores(text: Seq<char>, contacts: Value) -> bool {
    json_parse(text) == Ok::<Value, serde_json::Error>(contacts)
}

/// A load of a file that holds `text` gives `contacts`.
pub open spec fn loads_as(text: Seq<char>, contacts: Value) -> bool {
    loaded(StoredView::Text(text)) == Ok::<Value, Failure>(contacts)
}

/// Loading what a save wrote gives the saved collection back, for every
/// collection that the JSON codec restores from its own pretty-printed text.
///
/// The file is taken to hold, when it is read again, exactly the text that the
/// save handed over. The store adds nothing of its own on the way: where the
/// codec does not restore a collection (one nested deeper than the parser
/// follows), neither does the store.
pub proof fn lemma_load_after_save(contacts: Value, text: Seq<char>)
    ensures
        saves_as(contacts, text) && restores(text, contacts) ==> loads_as(text, contacts),
{
}

/// A load fails exactly when there is a file and what it holds is not JSON
/// text: it holds no text, it could not be read, or its text does not parse.
pub proof fn lemma_load_fails_only_on_a_damaged_file(stored: StoredView)
    ensures
        loaded(stored) is Err <==> (stored is NotText || stored is Unreadable || (
        stored matches StoredView::Text(text) && json_parse(text) is Err)),
        stored is Missing ==> loaded(stored) == Ok::<Value, Failure>(empty_collection()),
{
}

/// A file that is missing loads as a file that holds the text `[]` does, given
/// that this text parses.
pub proof fn lemma_missing_file_loads_as_empty_array()
    ensures
        json_parse(absent_text()) is Ok ==> loaded(StoredView::Missing) == loaded(
            StoredView::Text(absent_text()),
        ),
{
}

/// The JSON codec prints `contacts` as `text`.
pub open spec fn prints_as(contacts: Value, text: Seq<char>) -> bool {
    json_pretty(contacts) == Ok::<Seq<char>, serde_json::Error>(text)
}

/// A save goes through when the host creates the directory and writes the
/// file, for every collection that the codec prints: the write it asks for
/// after the directory is that of the pretty-printed collection to the location
/// the save started with, and the save ends in success.
///
/// A save whose directory could not be created ends with that failure, whatever
/// else the host would report, and asks for no write.
pub proof fn lemma_save_creates_directory_then_writes(
    location: StorageLocation,
    contacts: Value,
    text: Seq<char>,
    failure: Seq<char>,
    written: Result<(), Seq<char>>,
)
    ensures
        prints_as(contacts, text) ==> after_directory(location, contacts, Ok(())) == Ok::<
            WriteView,
            Failure,
        >((WriteView { location, text })),
        prints_as(contacts, text) ==> saved(contacts, Ok(()), Ok(())) is Ok,
        after_directory(location, contacts, Err(failure)) is Err,
        saved(contacts, Err(failure), written) == Err::<(), Failure>(io_failure(failure)),
{
}

} // verus!
