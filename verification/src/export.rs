//! Export and import of a space from the command line.

use std::path::PathBuf;
use vstd::prelude::*;
use vstd::string::*;
use crate::commands::{
    carries, encodable, export_csv, export_json, exported, import_agrees, import_csv, import_json,
    row_view, rows_view, ExportItem, ImportPlan, ItemView,
};
use crate::db::env::{entries_view, entry_view};
use crate::errors::AppError;

verus! {

/// The encoding of a record stream.
#[derive(Debug, Clone)]
pub enum Format {
    /// Structured text: a list of records with a `key` and a `value`.
    Json,
    /// A table with the columns `key` and `value`.
    Csv,
}

/// What an export is asked to do.
#[derive(Debug)]
pub struct ExportArgs {
    /// The directory of the environment.
    pub path: PathBuf,
    /// The space to export.
    pub db: String,
    /// The file to write.
    pub out: PathBuf,
    /// The encoding of the file.
    pub format: Format,
}

/// What an import is asked to do.
#[derive(Debug)]
pub struct ImportArgs {
    /// The directory of the environment.
    pub path: PathBuf,
    /// The space to import into.
    pub db: String,
    /// The file to read.
    pub input: PathBuf,
    /// The encoding of the file.
    pub format: Format,
}

/// A record stream in one of the two encodings, before it is written or
/// after it was read.
#[derive(Debug)]
pub enum Stream {
    /// The records of a structured-text stream.
    Json(Vec<ExportItem>),
    /// The rows of a table. An exported table starts with its header row; a
    /// table handed to an import comes without it.
    Csv(Vec<Vec<String>>),
}

/// The records that a stream handed to an import holds.
pub open spec fn stream_records(stream: Stream) -> Seq<Option<ItemView>> {
    match stream {
        Stream::Json(items) => Seq::new(items@.len(), |i: int| Some(items@[i]@)),
        Stream::Csv(rows) => rows_view(rows@),
    }
}

/// Whether a stream is in the given encoding.
pub open spec fn stream_is(stream: Stream, format: Format) -> bool {
    match (stream, format) {
        (Stream::Json(_), Format::Json) => true,
        (Stream::Csv(_), Format::Csv) => true,
        _ => false,
    }
}

/// Makes the stream that exports the entries of a space in the encoding the
/// arguments name. Every record carries its entry's key and the base64 text
/// of its value.
pub fn export(args: &ExportArgs, entries: &[(String, Vec<u8>)]) -> (stream: Stream)
    requires
        forall|i: int| 0 <= i < entries@.len() ==> encodable((#[trigger] entries@[i]).1@),
    ensures
        stream_is(stream, args.format),
        match stream {
            Stream::Json(items) => {
                &&& items@.len() == entries@.len()
                &&& forall|i: int|
                    0 <= i < items@.len() ==> (#[trigger] items@[i])@ == exported(
                        entry_view(entries@[i]),
                    )
                &&& forall|i: int|
                    0 <= i < items@.len() ==> carries(
                        (#[trigger] items@[i])@,
                        entry_view(entries@[i]),
                    )
            },
            Stream::Csv(rows) => {
                &&& rows@.len() == entries@.len() + 1
                &&& rows@[0]@.len() == 2 && rows@[0]@[0]@ == "key"@ && rows@[0]@[1]@ == "value"@
                &&& forall|i: int|
                    0 <= i < entries@.len() ==> row_view((#[trigger] rows@[i + 1])@) == Some(
                        exported(entry_view(entries@[i])),
                    )
                &&& forall|i: int|
                    0 <= i < entries@.len() ==> carries(
                        row_view((#[trigger] rows@[i + 1])@)->0,
                        entry_view(entries@[i]),
                    )
            },
        },
{
    match args.format {
        Format::Json => Stream::Json(export_json(entries)),
        Format::Csv => Stream::Csv(export_csv(entries)),
    }
}

/// Reads a stream into the entries to put into the space that the arguments
/// name. A stream in another encoding than the arguments name is rejected
/// whole; else the import stops at the first record that carries no entry.
pub fn import(args: &ImportArgs, stream: &Stream) -> (plan: ImportPlan)
    ensures
        stream_is(*stream, args.format) ==> import_agrees(
            stream_records(*stream),
            entries_view(plan.puts@),
            plan.error is Some,
        ),
        !stream_is(*stream, args.format) ==> plan.puts@.len() == 0 && (plan.error matches Some(
            AppError::BadQuery(reason),
        ) && reason@ == "stream and format differ"@),
{
    match (&args.format, stream) {
        (Format::Json, Stream::Json(items)) => import_json(items.as_slice()),
        (Format::Csv, Stream::Csv(rows)) => import_csv(rows.as_slice()),
        _ => ImportPlan {
            puts: Vec::new(),
            error: Some(AppError::BadQuery("stream and format differ".to_owned())),
        },
    }
}

} // verus!
