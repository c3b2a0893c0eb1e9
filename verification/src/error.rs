//! Errors of the library.
use vstd::prelude::*;

use crate::records::RecordKind;

verus! {

/// A row of a parameter table that could not be read; `message` says why.
#[derive(Debug)]
pub struct CsvError {
    pub message: String,
}

impl Clone for CsvError {
    fn clone(&self) -> (r: Self)
        ensures
            r == *self,
    {
        CsvError { message: self.message.clone() }
    }
}

/// Everything that can go wrong in the tool.
#[derive(Debug)]
pub enum AppError {
    /// A parameter table could not be read.
    Csv(CsvError),
    /// A file operation failed; the text says which and why.
    Io(String),
    /// The graph renderer exited with the given status.
    ExitStatusError { exit_status: String },
    /// No row of the named table matched the search.
    NotFound { record_type: &'static str, field: String },
    WrongRecordType { expected: &'static str, actual: RecordKind },
    RecordConversion(RecordConversionError),
    GraphCycle { kind: &'static str, id: i64 },
    /// More than one command-line argument was given.
    UnexpectedArgs { args: Vec<String> },
    /// No spell name was given on the command line.
    NoArgs,
    WorkerPanicked { message: String },
}

/// A record of one kind was expected and one of another kind was given.
#[derive(Debug)]
pub enum RecordConversionError {
    ExpectedMagic(RecordKind),
    ExpectedBullet(RecordKind),
    ExpectedAtkParamPc(RecordKind),
}

}
