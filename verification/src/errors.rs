//! Error taxonomy of the export pipeline.
//!
//! Fatal configuration errors map to exit code 1, database I/O errors to
//! exit code 2. Locally recovered conditions (a row that fails to decode,
//! a media type without a known extension) are not errors of this type:
//! they are surfaced as per-row outcomes by the driver.

use vstd::prelude::*;

verus! {

/// A fatal error of the pipeline. Each variant carries the context a
/// human-readable report needs.
#[derive(Debug)]
pub enum ExportError {
    /// The host OS family is not one of windows, linux, macos.
    UnsupportedOs(String),
    /// A required environment variable is unset or empty.
    EnvMissing(String),
    /// A filesystem path is not valid Unicode.
    PathNotUtf8(String),
    /// The configuration document is absent.
    ConfigNotFound(String),
    /// The configuration document is unparseable or lacks the `key` field.
    ConfigMalformed(String),
    /// The key does not decrypt the database header.
    BadKey,
    /// Any later database error.
    DbIo(String),
}

impl ExportError {
    /// The process exit code this error maps to: 2 for database I/O,
    /// 1 for every fatal configuration error.
    pub fn exit_code(&self) -> (r: i32)
        ensures
            r == (if self is DbIo {
                2int
            } else {
                1int
            }),
    {
        match self {
            ExportError::DbIo(_) => 2,
            _ => 1,
        }
    }

    /// A human-readable one-line report of the error.
    pub fn message(&self) -> (r: String)
        ensures
            self matches ExportError::UnsupportedOs(os) ==> r@ == "Unsupported OS: "@ + os@,
            self matches ExportError::EnvMissing(var) ==> r@ == "Environment variable unset or empty: "@
                + var@,
            self matches ExportError::PathNotUtf8(p) ==> r@ == "Path is not a valid utf8 string: "@
                + p@,
            self matches ExportError::ConfigNotFound(p) ==> r@ == "Config file not found: "@ + p@,
            self matches ExportError::ConfigMalformed(d) ==> r@ == "Config file malformed: "@ + d@,
            self is BadKey ==> r@ == "Bad key: the key does not decrypt the database"@,
            self matches ExportError::DbIo(d) ==> r@ == "Database error: "@ + d@,
    {
        match self {
            ExportError::UnsupportedOs(os) => {
                let s = "Unsupported OS: ".to_owned();
                s.concat(os.as_str())
            },
            ExportError::EnvMissing(var) => {
                let s = "Environment variable unset or empty: ".to_owned();
                s.concat(var.as_str())
            },
            ExportError::PathNotUtf8(p) => {
                let s = "Path is not a valid utf8 string: ".to_owned();
                s.concat(p.as_str())
            },
            ExportError::ConfigNotFound(p) => {
                let s = "Config file not found: ".to_owned();
                s.concat(p.as_str())
            },
            ExportError::ConfigMalformed(d) => {
                let s = "Config file malformed: ".to_owned();
                s.concat(d.as_str())
            },
            ExportError::BadKey => "Bad key: the key does not decrypt the database".to_owned(),
            ExportError::DbIo(d) => {
                let s = "Database error: ".to_owned();
                s.concat(d.as_str())
            },
        }
    }
}

} // verus!
