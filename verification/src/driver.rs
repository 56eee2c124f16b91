//! Pipeline driver logic: the computations and decisions of the export
//! pipeline that do not touch the outside world. The surrounding
//! application reads the environment, the configuration file and the
//! database, and hands every value here.

use vstd::prelude::*;
use crate::errors::ExportError;
use crate::extension::{resolve_extension, spec_resolve, Resolution};
use crate::json::json_parse;
use crate::message::{decodable, decode, decoded, DecodeError, MessageContent};
use crate::text::{dec_digits, u64_to_string};

verus! {

/// The exact count line the pipeline reports on the diagnostic stream.
pub fn count_line(n: u64) -> (r: String)
    ensures
        r@ == "Number of messages with attachments: "@ + dec_digits(n as nat),
{
    let s = "Number of messages with attachments: ".to_owned();
    let digits = u64_to_string(n);
    s.concat(digits.as_str())
}

/// The value handed to the key-installation pragma: the hex key quoted as
/// `x'<hex>'`.
pub fn key_pragma_value(key: &str) -> (r: String)
    ensures
        r@ == "x'"@ + key@ + "'"@,
{
    let s = "x'".to_owned();
    let s = s.concat(key);
    s.concat("'")
}

/// Classifies the probe query that follows the key installation: a failed
/// probe means the key does not decrypt the database header, and is
/// reported as `BadKey` rather than as a generic database error.
pub fn classify_probe(probe_ok: bool) -> (r: Result<(), ExportError>)
    ensures
        probe_ok ==> r is Ok,
        !probe_ok ==> (r matches Err(e) && e is BadKey),
{
    if probe_ok {
        Ok(())
    } else {
        Err(ExportError::BadKey)
    }
}

/// The statistics the driver collects while it streams the rows. Each
/// counter saturates at its maximum rather than overflowing.
pub struct ExportStats {
    pub messages_seen: u64,
    pub attachments_seen: u64,
    pub rows_failed: u64,
    pub anomalies: u64,
}

/// `a + b`, saturating at the top of `u64`.
pub open spec fn sat_add(a: u64, b: u64) -> u64 {
    if a + b <= u64::MAX {
        (a + b) as u64
    } else {
        u64::MAX
    }
}

impl ExportStats {
    /// Fresh statistics: every counter at zero.
    pub fn new() -> (r: ExportStats)
        ensures
            r.messages_seen == 0,
            r.attachments_seen == 0,
            r.rows_failed == 0,
            r.anomalies == 0,
    {
        ExportStats { messages_seen: 0, attachments_seen: 0, rows_failed: 0, anomalies: 0 }
    }

    /// Records one decoded row with `attachments` attachments, of which
    /// `anomalies` resolved with an anomaly.
    pub fn record_row(&mut self, attachments: u64, anomalies: u64)
        ensures
            final(self).messages_seen == sat_add(old(self).messages_seen, 1),
            final(self).attachments_seen == sat_add(old(self).attachments_seen, attachments),
            final(self).anomalies == sat_add(old(self).anomalies, anomalies),
            final(self).rows_failed == old(self).rows_failed,
    {
        self.messages_seen = sat_add_exec(self.messages_seen, 1);
        self.attachments_seen = sat_add_exec(self.attachments_seen, attachments);
        self.anomalies = sat_add_exec(self.anomalies, anomalies);
    }

    /// Records one row that failed to decode.
    pub fn record_failed_row(&mut self)
        ensures
            final(self).rows_failed == sat_add(old(self).rows_failed, 1),
            final(self).messages_seen == old(self).messages_seen,
            final(self).attachments_seen == old(self).attachments_seen,
            final(self).anomalies == old(self).anomalies,
    {
        self.rows_failed = sat_add_exec(self.rows_failed, 1);
    }
}

/// `a + b`, saturating at the top of `u64`.
fn sat_add_exec(a: u64, b: u64) -> (r: u64)
    ensures
        r == sat_add(a, b),
{
    if a <= u64::MAX - b {
        a + b
    } else {
        u64::MAX
    }
}

/// One attachment of a decoded row, with its media type resolved.
pub struct AttachmentResolution {
    pub content_type: String,
    pub resolution: Resolution,
}

/// Processes one row's document: decodes it and resolves an extension for
/// each of its attachments. A row without attachments yields an empty
/// list. A failure here is per-row: the caller logs it and continues.
pub fn process_document(text: &str) -> (r: Result<Vec<AttachmentResolution>, DecodeError>)
    ensures
        json_parse(text@) is None ==> (r matches Err(e) && e is Syntax),
        json_parse(text@) matches Some(j) ==> {
            &&& !decodable(j) ==> (r matches Err(e) && e is Schema)
            &&& decodable(j) ==> (r matches Ok(v) && ({
                let atts = match decoded(j).attachments {
                    Some(s) => s,
                    None => Seq::empty(),
                };
                &&& v@.len() == atts.len()
                &&& (forall|i: int|
                    0 <= i < atts.len() ==> {
                        &&& (#[trigger] v@[i]).content_type@ == atts[i].content_type
                        &&& v@[i].resolution@ == spec_resolve(atts[i].content_type)
                    })
            }))
        },
{
    let msg: MessageContent = match decode(text) {
        Ok(m) => m,
        Err(e) => {
            return Err(e);
        },
    };
    let mut out: Vec<AttachmentResolution> = Vec::new();
    let attachments: Vec<crate::message::Attachment> = match msg.attachments {
        Some(a) => a,
        None => {
            return Ok(out);
        },
    };
    let ghost atts = decoded(json_parse(text@).unwrap()).attachments.unwrap();
    let mut i: usize = 0;
    while i < attachments.len()
        invariant
            0 <= i <= attachments@.len(),
            atts.len() == attachments@.len(),
            forall|k: int| 0 <= k < attachments@.len() ==> attachments@[k]@ == atts[k],
            out@.len() == i,
            forall|k: int|
                0 <= k < i ==> {
                    &&& (#[trigger] out@[k]).content_type@ == atts[k].content_type
                    &&& out@[k].resolution@ == spec_resolve(atts[k].content_type)
                },
        decreases attachments@.len() - i,
    {
        let ct = attachments[i].content_type.clone();
        let resolution = resolve_extension(ct.as_str());
        out.push(AttachmentResolution { content_type: ct, resolution });
        i = i + 1;
    }
    Ok(out)
}

} // verus!
