//! Moving CSV text in and out through files that the user picks.
//!
//! The text is carried as it is: nothing here parses or rewrites CSV. An import
//! and an export are each a short exchange with the host, which shows the file
//! dialog and then reads or writes the chosen file. Closing the dialog without a
//! choice ends the operation in success, without touching any file.

use crate::error::{host_outcome, io_failure, outcome_view, report_view, StoreError};
use std::path::PathBuf;
use vstd::prelude::*;

verus! {

/// What an import hands to the caller.
#[derive(Debug, PartialEq, Eq)]
pub struct CsvResult {
    /// The user closed the dialog without a choice.
    pub canceled: bool,
    /// The text of the chosen file; empty when `canceled`.
    pub content: String,
}

/// The files that a dialog offers: a label and the extensions it lets through.
#[derive(Debug, PartialEq, Eq)]
pub struct FileFilter {
    pub name: String,
    pub extensions: Vec<String>,
}

/// Which file dialog the host is asked to show.
#[derive(Clone, Copy, Debug, PartialEq, Eq, Structural)]
pub enum Dialog {
    /// The dialog for choosing a file to open.
    OpenFile,
    /// The dialog for choosing a file to save to.
    SaveFile,
}

/// How a file dialog ended.
#[derive(Debug, PartialEq, Eq)]
pub enum Pick {
    /// The user closed the dialog without a choice.
    Canceled,
    /// The user chose the file at this path.
    File(PathBuf),
    /// The user chose something that the host could not turn into a path; the
    /// text is the host's description of why.
    Unresolved(String),
}

/// The filter of both dialogs: labelled `CSV`, letting through `csv` alone.
pub open spec fn is_csv_filter(filter: FileFilter) -> bool {
    &&& filter.name@ == "CSV"@
    &&& filter.extensions@.len() == 1
    &&& filter.extensions@[0]@ == "csv"@
}

/// Builds the filter of both dialogs.
pub fn csv_filter() -> (filter: FileFilter)
    ensures
        is_csv_filter(filter),
{
    let mut extensions: Vec<String> = Vec::new();
    extensions.push("csv".to_owned());
    FileFilter { name: "CSV".to_owned(), extensions }
}

/// An import that waits for the host to show `dialog` with `filter`.
#[derive(Debug, PartialEq, Eq)]
pub struct ImportPick {
    pub dialog: Dialog,
    pub filter: FileFilter,
}

/// An import that waits for the host to read the whole file at `path` as text.
#[derive(Debug, PartialEq, Eq)]
pub struct ImportRead {
    pub path: PathBuf,
}

/// What an import does once the dialog has ended.
#[derive(Debug, PartialEq, Eq)]
pub enum ImportStep {
    /// The host is asked to read the chosen file.
    Read(ImportRead),
    /// The import is over, and no file is read.
    Done(Result<CsvResult, StoreError>),
}

/// Starts an import: the first thing asked of the host is the dialog for
/// opening a file.
pub fn import_csv() -> (pending: ImportPick)
    ensures
        pending.dialog == Dialog::OpenFile,
        is_csv_filter(pending.filter),
{
    ImportPick { dialog: Dialog::OpenFile, filter: csv_filter() }
}

impl ImportPick {
    /// Goes on after the dialog has ended.
    ///
    /// A dialog closed without a choice ends the import in success, marked as
    /// canceled and with empty content, and no file is read. A choice without a
    /// path ends it with the host's report as an `Io` failure. Otherwise the
    /// host is asked to read the chosen file.
    pub fn picked(self, pick: Pick) -> (step: ImportStep)
        ensures
            match pick {
                Pick::Canceled => step matches ImportStep::Done(Ok(result)) && result.canceled
                    && result.content@ == Seq::<char>::empty(),
                Pick::File(path) => step matches ImportStep::Read(read) && read.path == path,
                Pick::Unresolved(message) => step matches ImportStep::Done(Err(error))
                    && error@ == io_failure(message@),
            },
    {
        match pick {
            Pick::Canceled => ImportStep::Done(
                Ok(CsvResult { canceled: true, content: String::new() }),
            ),
            Pick::File(path) => ImportStep::Read(ImportRead { path }),
            Pick::Unresolved(message) => ImportStep::Done(Err(StoreError::io(message))),
        }
    }
}

impl ImportRead {
    /// Ends the import after the host tried to read the file: the text as the
    /// host read it, not marked as canceled, or the host's report as an `Io`
    /// failure.
    pub fn read(self, outcome: Result<String, String>) -> (done: Result<CsvResult, StoreError>)
        ensures
            match outcome {
                Ok(content) => done matches Ok(result) && !result.canceled && result.content@
                    == content@,
                Err(message) => done matches Err(error) && error@ == io_failure(message@),
            },
    {
        match outcome {
            Ok(content) => Ok(CsvResult { canceled: false, content }),
            Err(message) => Err(StoreError::io(message)),
        }
    }
}

/// An export that waits for the host to show `dialog` with `filter`; `csv` is
/// the text to be written.
#[derive(Debug, PartialEq, Eq)]
pub struct ExportPick {
    pub dialog: Dialog,
    pub filter: FileFilter,
    pub csv: String,
}

/// An export that waits for the host to write `text` to the file at `path`, in
/// place of whatever the file held.
#[derive(Debug, PartialEq, Eq)]
pub struct ExportWrite {
    pub path: PathBuf,
    pub text: String,
}

/// What an export does once the dialog has ended.
#[derive(Debug, PartialEq, Eq)]
pub enum ExportStep {
    /// The host is asked to write the text to the chosen file.
    Write(ExportWrite),
    /// The export is over, and no file is written.
    Done(Result<(), StoreError>),
}

/// Starts an export of `csv`: the first thing asked of the host is the dialog
/// for saving a file.
pub fn export_csv(csv: String) -> (pending: ExportPick)
    ensures
        pending.dialog == Dialog::SaveFile,
        is_csv_filter(pending.filter),
        pending.csv@ == csv@,
{
    ExportPick { dialog: Dialog::SaveFile, filter: csv_filter(), csv }
}

impl ExportPick {
    /// Goes on after the dialog has ended.
    ///
    /// A dialog closed without a choice ends the export in success and no file
    /// is written. A choice without a path ends it with the host's report as an
    /// `Io` failure. Otherwise the host is asked to write the text, character
    /// for character as it was given, to the chosen file.
    pub fn picked(self, pick: Pick) -> (step: ExportStep)
        ensures
            match pick {
                Pick::Canceled => step matches ExportStep::Done(Ok(_)),
                Pick::File(path) => step matches ExportStep::Write(write) && write.path == path
                    && write.text@ == self.csv@,
                Pick::Unresolved(message) => step matches ExportStep::Done(Err(error))
                    && error@ == io_failure(message@),
            },
    {
        match pick {
            Pick::Canceled => ExportStep::Done(Ok(())),
            Pick::File(path) => ExportStep::Write(ExportWrite { path, text: self.csv }),
            Pick::Unresolved(message) => ExportStep::Done(Err(StoreError::io(message))),
        }
    }
}

impl ExportWrite {
    /// Ends the export after the host tried to write the text: success, or the
    /// host's report as an `Io` failure.
    pub fn written(self, outcome: Result<(), String>) -> (done: Result<(), StoreError>)
        ensures
            outcome_view(done) == host_outcome(report_view(outcome)),
    {
        StoreError::from_host(outcome)
    }
}

} // verus!
