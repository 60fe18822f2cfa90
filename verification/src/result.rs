//! The error taxonomy of the service, and its mapping to HTTP status codes.

use vstd::prelude::*;

verus! {

/// Every failure the service reports to a client, with any data the
/// client needs to act on it (the configured cap on `FileTooLarge`).
#[derive(Clone, Copy, Debug, PartialEq, Eq, Structural)]
pub enum Error {
    FileTooLarge { max_size: usize },
    FileTypeNotAllowed,
    FailedToReceive,
    BlockingError,
    DatabaseError,
    MissingData,
    UnknownTag,
    ProbeError,
    NotFound,
    IOError,
    S3Error,
    LabelMe,
}

/// The HTTP status code each error maps to.
pub open spec fn spec_status_code(e: Error) -> u16 {
    match e {
        Error::FileTooLarge { .. } => 413,
        Error::FileTypeNotAllowed => 400,
        Error::FailedToReceive => 400,
        Error::DatabaseError => 500,
        Error::MissingData => 400,
        Error::UnknownTag => 400,
        Error::ProbeError => 500,
        Error::NotFound => 404,
        Error::BlockingError => 500,
        Error::IOError => 500,
        Error::S3Error => 500,
        Error::LabelMe => 500,
    }
}

/// The stable discriminator that error bodies carry in their `type` field.
pub open spec fn spec_label(e: Error) -> Seq<char> {
    match e {
        Error::FileTooLarge { .. } => "FileTooLarge"@,
        Error::FileTypeNotAllowed => "FileTypeNotAllowed"@,
        Error::FailedToReceive => "FailedToReceive"@,
        Error::DatabaseError => "DatabaseError"@,
        Error::MissingData => "MissingData"@,
        Error::UnknownTag => "UnknownTag"@,
        Error::ProbeError => "ProbeError"@,
        Error::NotFound => "NotFound"@,
        Error::BlockingError => "BlockingError"@,
        Error::IOError => "IOError"@,
        Error::S3Error => "S3Error"@,
        Error::LabelMe => "LabelMe"@,
    }
}

impl Error {
    /// The HTTP status code for this error: 400 for client mistakes,
    /// 404 for a missing record, 413 for an oversized upload, 500 for
    /// infrastructure failures.
    pub fn status_code(&self) -> (code: u16)
        ensures
            code == spec_status_code(*self),
    {
        match self {
            Error::FileTooLarge { .. } => 413,
            Error::FileTypeNotAllowed => 400,
            Error::FailedToReceive => 400,
            Error::DatabaseError => 500,
            Error::MissingData => 400,
            Error::UnknownTag => 400,
            Error::ProbeError => 500,
            Error::NotFound => 404,
            Error::BlockingError => 500,
            Error::IOError => 500,
            Error::S3Error => 500,
            Error::LabelMe => 500,
        }
    }

    /// The stable `type` discriminator for this error's JSON body.
    pub fn label(&self) -> (s: String)
        ensures
            s@ == spec_label(*self),
    {
        match self {
            Error::FileTooLarge { .. } => "FileTooLarge".to_owned(),
            Error::FileTypeNotAllowed => "FileTypeNotAllowed".to_owned(),
            Error::FailedToReceive => "FailedToReceive".to_owned(),
            Error::DatabaseError => "DatabaseError".to_owned(),
            Error::MissingData => "MissingData".to_owned(),
            Error::UnknownTag => "UnknownTag".to_owned(),
            Error::ProbeError => "ProbeError".to_owned(),
            Error::NotFound => "NotFound".to_owned(),
            Error::BlockingError => "BlockingError".to_owned(),
            Error::IOError => "IOError".to_owned(),
            Error::S3Error => "S3Error".to_owned(),
            Error::LabelMe => "LabelMe".to_owned(),
        }
    }
}

} // verus!
