//! End-to-end behavior of the verified pipeline logic: location
//! resolution, config reading, document decoding, extension resolution,
//! and the driver's decisions.

use signal_export::config::{read_key, SignalConfig};
use signal_export::driver::{
    classify_probe, count_line, key_pragma_value, process_document, ExportStats,
};
use signal_export::errors::ExportError;
use signal_export::extension::{resolve_extension, Resolution};
use signal_export::locate::{
    get_config_location, get_db_location, get_signal_location, host_os, os_suffix,
    profile_env_var, require_env, signal_paths, HostOs,
};
use signal_export::message::{decode, DecodeError};
use signal_export::text::u64_to_string;

// ---------------------------------------------------------------- locate

#[test]
fn host_os_supported_families() {
    assert!(matches!(host_os("windows"), Ok(HostOs::Windows)));
    assert!(matches!(host_os("linux"), Ok(HostOs::Linux)));
    assert!(matches!(host_os("macos"), Ok(HostOs::MacOs)));
}

#[test]
fn host_os_unsupported_family() {
    match host_os("freebsd") {
        Err(ExportError::UnsupportedOs(name)) => assert_eq!(name, "freebsd"),
        _ => panic!("freebsd must be an UnsupportedOs error"),
    }
}

#[test]
fn profile_env_var_per_os() {
    assert_eq!(profile_env_var(HostOs::Windows), "USERPROFILE");
    assert_eq!(profile_env_var(HostOs::Linux), "HOME");
    assert_eq!(profile_env_var(HostOs::MacOs), "HOME");
}

#[test]
fn require_env_accepts_nonempty() {
    let r = require_env("HOME", Some("/home/u".to_string()));
    assert_eq!(r.unwrap(), "/home/u");
}

#[test]
fn require_env_rejects_unset_and_empty() {
    match require_env("HOME", None) {
        Err(ExportError::EnvMissing(v)) => assert_eq!(v, "HOME"),
        _ => panic!("unset variable must be EnvMissing"),
    }
    match require_env("USERPROFILE", Some(String::new())) {
        Err(ExportError::EnvMissing(v)) => assert_eq!(v, "USERPROFILE"),
        _ => panic!("empty variable must be EnvMissing"),
    }
}

#[test]
fn install_dir_ends_with_platform_suffix() {
    let home = "/home/u";
    for os in [HostOs::Windows, HostOs::Linux, HostOs::MacOs] {
        let dir = get_signal_location(os, home);
        assert!(dir.ends_with(os_suffix(os)));
        assert!(dir.starts_with(home));
    }
}

#[test]
fn signal_paths_compose_all_three_locations() {
    let p = signal_paths(HostOs::Linux, "/home/u");
    assert_eq!(p.install_dir, "/home/u/.config/Signal");
    assert_eq!(p.config_file, "/home/u/.config/Signal/config.json");
    assert_eq!(p.db_file, "/home/u/.config/Signal/sql/db.sqlite");

    let w = signal_paths(HostOs::Windows, "C:/Users/u");
    assert_eq!(w.install_dir, "C:/Users/u/AppData/Roaming/Signal");

    let m = signal_paths(HostOs::MacOs, "/Users/u");
    assert_eq!(m.install_dir, "/Users/u/Library/Application Support/Signal");
}

#[test]
fn db_location_is_under_sql() {
    let loc = "/home/u/.config/Signal".to_string();
    assert_eq!(get_db_location(&loc).unwrap(), "/home/u/.config/Signal/sql/db.sqlite");
}

#[test]
fn joins_do_not_double_a_trailing_separator() {
    let loc = "/home/u/.config/Signal/".to_string();
    assert_eq!(get_db_location(&loc).unwrap(), "/home/u/.config/Signal/sql/db.sqlite");
    assert_eq!(get_config_location("/x/Signal/"), "/x/Signal/config.json");
    let p = signal_paths(HostOs::Linux, "/home/u/");
    assert_eq!(p.install_dir, "/home/u/.config/Signal");
    assert_eq!(p.db_file, "/home/u/.config/Signal/sql/db.sqlite");
}

#[test]
fn config_location_is_config_json() {
    assert_eq!(get_config_location("/x/Signal"), "/x/Signal/config.json");
}

// ---------------------------------------------------------------- config

#[test]
fn read_key_returns_key_verbatim() {
    let text = "{\"key\": \"ab12\", \"mediaPermissions\": true}";
    assert_eq!(read_key(text).unwrap(), "ab12");
    let cfg = SignalConfig::parse(text).unwrap();
    assert_eq!(cfg.key, "ab12");
}

#[test]
fn read_key_keeps_unusual_keys_unaltered() {
    // The reader does not validate hex-ness; the database opener is the
    // oracle of that.
    let text = "{\"key\": \"ZZ not hex 00\"}";
    assert_eq!(read_key(text).unwrap(), "ZZ not hex 00");
}

#[test]
fn read_key_rejects_bad_documents() {
    assert!(matches!(read_key("not json at all"), Err(ExportError::ConfigMalformed(_))));
    assert!(matches!(read_key("{\"other\": 1}"), Err(ExportError::ConfigMalformed(_))));
    assert!(matches!(read_key("{\"key\": 17}"), Err(ExportError::ConfigMalformed(_))));
    assert!(matches!(read_key("[\"key\"]"), Err(ExportError::ConfigMalformed(_))));
}

#[test]
fn read_key_rejects_oversized_documents() {
    let mut text = String::from("{\"key\": \"");
    text.push_str(&"a".repeat(70000));
    text.push_str("\"}");
    assert!(matches!(read_key(&text), Err(ExportError::ConfigMalformed(_))));
}

#[test]
fn read_key_measures_the_cap_in_bytes() {
    // 40000 two-byte characters: within the cap counted in characters,
    // past it counted in bytes. The reader must reject the document.
    let mut text = String::from("{\"key\": \"");
    text.push_str(&"\u{00e4}".repeat(40000));
    text.push_str("\"}");
    assert!(text.len() > 65536);
    assert!(text.chars().count() <= 65536);
    assert!(matches!(read_key(&text), Err(ExportError::ConfigMalformed(_))));
}

// ---------------------------------------------------------------- decode

fn sample_document() -> String {
    "{\
     \"timestamp\": 1565100000000,\
     \"attachments\": [\
       {\"contentType\": \"image/jpeg\", \"fileName\": \"cat.jpg\", \"path\": \"ab/cd\"},\
       {\"contentType\": \"application/unknown-zzz\"}\
     ],\
     \"source\": \"+1555\",\
     \"sourceDevice\": 2,\
     \"sentAt\": 1565100000001,\
     \"receivedAt\": 1565100000002,\
     \"conversationId\": \"conv-1\",\
     \"unidentifiedDeliveryReceived\": true,\
     \"type\": \"incoming\",\
     \"schemaVersion\": 10,\
     \"id\": \"msg-1\",\
     \"body\": \"hello\",\
     \"decryptedAt\": 1565100000003,\
     \"flags\": 0,\
     \"hasAttachments\": 1,\
     \"hasVisualMediaAttachments\": 1,\
     \"isViewOnce\": false,\
     \"requiredProtocolVersion\": 7,\
     \"supportedVersionAtReceive\": 7,\
     \"readStatus\": 0,\
     \"seenStatus\": 1,\
     \"someFutureField\": {\"ignored\": true}\
     }"
        .to_string()
}

#[test]
fn decode_preserves_required_fields_bit_exactly() {
    let msg = decode(&sample_document()).unwrap();
    assert_eq!(msg.received_at, 1565100000002);
    assert_eq!(msg.schema_version, 10);
    assert_eq!(msg.id, "msg-1");
    assert_eq!(msg.read_status, 0);
    assert_eq!(msg.seen_status, 1);
}

#[test]
fn decode_is_a_pure_function_of_the_text() {
    let a = decode(&sample_document()).unwrap();
    let b = decode(&sample_document()).unwrap();
    assert_eq!(a.received_at, b.received_at);
    assert_eq!(a.id, b.id);
    assert_eq!(a.attachments.as_ref().unwrap().len(), b.attachments.as_ref().unwrap().len());
}

#[test]
fn decode_reads_optional_fields() {
    let msg = decode(&sample_document()).unwrap();
    assert_eq!(msg.timestamp, Some(1565100000000));
    assert_eq!(msg.sent_at, Some(1565100000001));
    assert_eq!(msg.source.as_deref(), Some("+1555"));
    assert_eq!(msg.source_device, Some(2));
    assert_eq!(msg.conversation_id.as_deref(), Some("conv-1"));
    assert_eq!(msg.unidentified_delivery_received, Some(true));
    assert_eq!(msg.type_.as_deref(), Some("incoming"));
    assert_eq!(msg.body.as_deref(), Some("hello"));
    assert_eq!(msg.decrypted_at, Some(1565100000003));
    assert_eq!(msg.flags, Some(0));
    assert_eq!(msg.has_attachments, Some(1));
    assert_eq!(msg.has_visual_media_attachments, Some(1));
    assert_eq!(msg.is_view_once, Some(false));
    assert_eq!(msg.required_protocol_version, Some(7));
    assert_eq!(msg.supported_version_at_receive, Some(7));
    let atts = msg.attachments.unwrap();
    assert_eq!(atts.len(), 2);
    assert_eq!(atts[0].content_type, "image/jpeg");
    assert_eq!(atts[0].file_name.as_deref(), Some("cat.jpg"));
    assert_eq!(atts[0].path.as_deref(), Some("ab/cd"));
    assert_eq!(atts[0].attachment_identifier, None);
    assert_eq!(atts[1].content_type, "application/unknown-zzz");
}

#[test]
fn decode_tolerates_absent_optionals() {
    let text = "{\"receivedAt\": 5, \"schemaVersion\": 1, \"id\": \"x\", \
                \"readStatus\": 0, \"seenStatus\": 0}";
    let msg = decode(text).unwrap();
    assert_eq!(msg.timestamp, None);
    assert!(msg.attachments.is_none());
    assert!(msg.body.is_none());
}

#[test]
fn decode_treats_null_optionals_as_absent() {
    let text = "{\"receivedAt\": 5, \"schemaVersion\": 1, \"id\": \"x\", \
                \"readStatus\": 0, \"seenStatus\": 0, \"body\": null, \
                \"attachments\": null, \"flags\": null}";
    let msg = decode(text).unwrap();
    assert!(msg.body.is_none());
    assert!(msg.attachments.is_none());
    assert!(msg.flags.is_none());
}

#[test]
fn decode_fails_on_missing_required_field() {
    let text = "{\"schemaVersion\": 1, \"id\": \"x\", \"readStatus\": 0, \"seenStatus\": 0}";
    assert!(matches!(decode(text), Err(DecodeError::Schema)));
}

#[test]
fn decode_fails_on_wrongly_typed_fields() {
    // A required field with the wrong type.
    let text = "{\"receivedAt\": \"soon\", \"schemaVersion\": 1, \"id\": \"x\", \
                \"readStatus\": 0, \"seenStatus\": 0}";
    assert!(matches!(decode(text), Err(DecodeError::Schema)));
    // An i32 field out of range.
    let text = "{\"receivedAt\": 5, \"schemaVersion\": 99999999999, \"id\": \"x\", \
                \"readStatus\": 0, \"seenStatus\": 0}";
    assert!(matches!(decode(text), Err(DecodeError::Schema)));
    // A present optional field with the wrong type.
    let text = "{\"receivedAt\": 5, \"schemaVersion\": 1, \"id\": \"x\", \
                \"readStatus\": 0, \"seenStatus\": 0, \"body\": 3}";
    assert!(matches!(decode(text), Err(DecodeError::Schema)));
    // An attachment without a contentType.
    let text = "{\"receivedAt\": 5, \"schemaVersion\": 1, \"id\": \"x\", \
                \"readStatus\": 0, \"seenStatus\": 0, \
                \"attachments\": [{\"fileName\": \"a\"}]}";
    assert!(matches!(decode(text), Err(DecodeError::Schema)));
    // The document is not an object at all.
    assert!(matches!(decode("[1, 2]"), Err(DecodeError::Schema)));
}

#[test]
fn decode_fails_on_malformed_text() {
    assert!(matches!(decode("{\"receivedAt\": "), Err(DecodeError::Syntax(_))));
}

#[test]
fn decode_accepts_empty_attachment_list() {
    let text = "{\"receivedAt\": 5, \"schemaVersion\": 1, \"id\": \"x\", \
                \"readStatus\": 0, \"seenStatus\": 0, \"attachments\": []}";
    let msg = decode(text).unwrap();
    assert_eq!(msg.attachments.unwrap().len(), 0);
}

// ------------------------------------------------------------- extension

#[test]
fn jpeg_resolves_to_preferred_jpg_without_anomaly() {
    // The registry offers several candidates for image/jpeg; the
    // preference list settles on jpg.
    match resolve_extension("image/jpeg") {
        Resolution::Chosen(e) => assert_eq!(e, "jpg"),
        _ => panic!("image/jpeg must resolve without anomaly"),
    }
}

#[test]
fn png_resolves_to_preferred_png() {
    match resolve_extension("image/png") {
        Resolution::Chosen(e) => assert_eq!(e, "png"),
        _ => panic!("image/png must resolve without anomaly"),
    }
}

#[test]
fn resolution_is_deterministic_across_runs() {
    for mt in ["image/jpeg", "audio/mid", "application/unknown-zzz", "text/html"] {
        let a = resolve_extension(mt);
        let b = resolve_extension(mt);
        assert_eq!(a.extension(), b.extension());
    }
}

#[test]
fn unpreferred_candidates_fall_back_to_the_first() {
    // audio/mid has several candidates and none is on the preference
    // list: an AmbiguousExtension anomaly, falling back to the first.
    match resolve_extension("audio/mid") {
        Resolution::Ambiguous(e, cands) => {
            assert!(cands.len() > 1);
            assert_eq!(&e, &cands[0]);
            assert!(!cands.contains(&"jpg".to_string()));
        },
        r => panic!("audio/mid must be ambiguous, got {:?}", r.extension()),
    }
}

#[test]
fn unknown_media_type_falls_back_to_bin() {
    match resolve_extension("application/unknown-zzz") {
        Resolution::NoExtension(e) => assert_eq!(e, "bin"),
        _ => panic!("an unknown media type must fall back to bin"),
    }
}

// ---------------------------------------------------------------- driver

#[test]
fn count_line_has_the_exact_shape() {
    assert_eq!(count_line(3), "Number of messages with attachments: 3");
    assert_eq!(count_line(0), "Number of messages with attachments: 0");
    assert_eq!(count_line(12345), "Number of messages with attachments: 12345");
}

#[test]
fn u64_renders_in_decimal() {
    assert_eq!(u64_to_string(0), "0");
    assert_eq!(u64_to_string(10), "10");
    assert_eq!(u64_to_string(18446744073709551615), "18446744073709551615");
}

#[test]
fn key_pragma_quotes_the_hex_key() {
    assert_eq!(key_pragma_value("ab12"), "x'ab12'");
}

#[test]
fn failed_probe_is_bad_key_with_exit_code_one() {
    match classify_probe(false) {
        Err(e) => {
            assert!(matches!(e, ExportError::BadKey));
            assert_eq!(e.exit_code(), 1);
            assert_eq!(e.message(), "Bad key: the key does not decrypt the database");
        },
        Ok(()) => panic!("a failed probe must be BadKey"),
    }
    assert!(classify_probe(true).is_ok());
}

#[test]
fn exit_codes_follow_the_error_taxonomy() {
    assert_eq!(ExportError::UnsupportedOs("plan9".to_string()).exit_code(), 1);
    assert_eq!(ExportError::EnvMissing("HOME".to_string()).exit_code(), 1);
    assert_eq!(ExportError::PathNotUtf8("p".to_string()).exit_code(), 1);
    assert_eq!(ExportError::ConfigNotFound("p".to_string()).exit_code(), 1);
    assert_eq!(ExportError::ConfigMalformed("d".to_string()).exit_code(), 1);
    assert_eq!(ExportError::BadKey.exit_code(), 1);
    assert_eq!(ExportError::DbIo("d".to_string()).exit_code(), 2);
}

#[test]
fn error_messages_name_their_context() {
    assert_eq!(
        ExportError::UnsupportedOs("plan9".to_string()).message(),
        "Unsupported OS: plan9"
    );
    assert_eq!(
        ExportError::EnvMissing("HOME".to_string()).message(),
        "Environment variable unset or empty: HOME"
    );
    assert_eq!(ExportError::DbIo("locked".to_string()).message(), "Database error: locked");
}

#[test]
fn process_document_resolves_each_attachment() {
    let rs = process_document(&sample_document()).unwrap();
    assert_eq!(rs.len(), 2);
    assert_eq!(rs[0].content_type, "image/jpeg");
    assert_eq!(rs[0].resolution.extension(), "jpg");
    assert_eq!(rs[1].content_type, "application/unknown-zzz");
    assert_eq!(rs[1].resolution.extension(), "bin");
}

#[test]
fn malformed_row_fails_alone_and_later_rows_still_process() {
    let good = "{\"receivedAt\": 5, \"schemaVersion\": 1, \"id\": \"x\", \
                \"readStatus\": 0, \"seenStatus\": 0}";
    let rows = [good, good, "{ not json", good, good];
    let mut failures = 0;
    let mut successes = 0;
    for row in rows {
        match process_document(row) {
            Ok(_) => successes += 1,
            Err(DecodeError::Syntax(detail)) => {
                failures += 1;
                assert!(!detail.is_empty());
            },
            Err(DecodeError::Schema) => panic!("only the third row may fail, with Syntax"),
        }
    }
    assert_eq!(successes, 4);
    assert_eq!(failures, 1);
}

#[test]
fn stats_saturate_and_count() {
    let mut stats = ExportStats::new();
    stats.record_row(2, 1);
    stats.record_row(0, 0);
    stats.record_failed_row();
    assert_eq!(stats.messages_seen, 2);
    assert_eq!(stats.attachments_seen, 2);
    assert_eq!(stats.anomalies, 1);
    assert_eq!(stats.rows_failed, 1);
    let mut top = ExportStats::new();
    top.attachments_seen = u64::MAX - 1;
    top.record_row(5, 0);
    assert_eq!(top.attachments_seen, u64::MAX);
}
