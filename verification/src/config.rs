//! Config reader: extracts the database key from Signal's configuration
//! document.

use vstd::prelude::*;
use vstd::string::StringSliceAdditionalSpecFns;
use crate::errors::ExportError;
use crate::json::{json_parse, parse_value, value_as_str, value_field, JsonModel};

verus! {

/// The largest configuration document the reader accepts, in bytes.
pub const MAX_CONFIG_BYTES: usize = 65536;

/// The parsed configuration document: the hex-encoded database key. The
/// key is opaque here; the database opener is the oracle of its validity.
pub struct SignalConfig {
    pub key: String,
}

/// The `key` field of a parsed configuration document: `Some` exactly when
/// the document is an object whose `key` field is a string.
pub open spec fn key_of(j: JsonModel) -> Option<Seq<char>> {
    match j {
        JsonModel::Obj(m) => if m.contains_key("key"@) {
            match m["key"@] {
                JsonModel::Str(s) => Some(s),
                _ => None,
            }
        } else {
            None
        },
        _ => None,
    }
}

/// Whether a configuration document of `len` bytes with content `text`
/// yields a key.
pub open spec fn config_key(text: Seq<char>) -> Option<Seq<char>> {
    match json_parse(text) {
        Some(j) => key_of(j),
        None => None,
    }
}

/// Extracts the `key` field from the text of a configuration document,
/// verbatim. Oversized documents and documents without a string `key`
/// field are `ConfigMalformed`.
pub fn read_key(text: &str) -> (r: Result<String, ExportError>)
    ensures
        text.spec_bytes().len() > MAX_CONFIG_BYTES ==> (r matches Err(e)
            && e is ConfigMalformed),
        text.spec_bytes().len() <= MAX_CONFIG_BYTES ==> match config_key(text@) {
            Some(k) => r matches Ok(s) && s@ == k,
            None => r matches Err(e) && e is ConfigMalformed,
        },
{
    if text.as_bytes().len() > MAX_CONFIG_BYTES {
        return Err(ExportError::ConfigMalformed("config document too large".to_owned()));
    }
    let parsed = match parse_value(text) {
        Ok(v) => v,
        Err(detail) => {
            return Err(ExportError::ConfigMalformed(detail));
        },
    };
    let field = match value_field(&parsed, "key") {
        Some(f) => f,
        None => {
            return Err(ExportError::ConfigMalformed("no `key` field".to_owned()));
        },
    };
    match value_as_str(field) {
        Some(k) => Ok(k.to_owned()),
        None => Err(ExportError::ConfigMalformed("`key` field is not a string".to_owned())),
    }
}

impl SignalConfig {
    /// Parses a configuration document.
    pub fn parse(text: &str) -> (r: Result<SignalConfig, ExportError>)
        ensures
            text.spec_bytes().len() > MAX_CONFIG_BYTES ==> (r matches Err(e)
                && e is ConfigMalformed),
            text.spec_bytes().len() <= MAX_CONFIG_BYTES ==> match config_key(text@) {
                Some(k) => r matches Ok(c) && c.key@ == k,
                None => r matches Err(e) && e is ConfigMalformed,
            },
    {
        match read_key(text) {
            Ok(key) => Ok(SignalConfig { key }),
            Err(e) => Err(e),
        }
    }
}

} // verus!
