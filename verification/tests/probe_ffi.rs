use keel::json_tree::{JsonNumber, JsonValue};
use keel::probe_ffi::{
    delete_json, exists_json, mkdir_json, parse_sid, payload_error, payload_ok, rename_json, report_line, soak_remote,
    step_line, storage_from_payload, transfer_json, walk_json, GOLDEN_BASE,
};

fn text(s: &str) -> JsonValue {
    JsonValue::Str(s.to_string())
}

fn envelope(error_type: &str, error: &str, data: JsonValue) -> Option<JsonValue> {
    Some(JsonValue::Object(vec![
        ("data".to_string(), data),
        ("error".to_string(), text(error)),
        ("errorType".to_string(), text(error_type)),
    ]))
}

fn storages(sid: u64) -> JsonValue {
    JsonValue::Array(vec![JsonValue::Object(vec![
        ("Info".to_string(), JsonValue::Object(vec![])),
        ("Sid".to_string(), JsonValue::Number(JsonNumber::PosInt(sid))),
    ])])
}

#[test]
fn inputs_have_sorted_keys_and_escaped_strings() {
    assert_eq!(
        walk_json(65537, "/Download", true),
        "{\"fullPath\":\"/Download\",\"recursive\":true,\"skipDisallowedFiles\":false,\"skipHiddenFiles\":true,\"storageId\":65537}"
    );
    assert_eq!(
        exists_json(1, &[GOLDEN_BASE.to_string(), "a\"b".to_string()]),
        "{\"files\":[\"/Download/keel-golden-test\",\"a\\\"b\"],\"storageId\":1}"
    );
    assert_eq!(delete_json(2, &[]), "{\"files\":[],\"storageId\":2}");
    assert_eq!(mkdir_json(3, "/x"), "{\"fullPath\":\"/x\",\"storageId\":3}");
    assert_eq!(rename_json(4, "/x/y", "z.bin"), "{\"fullPath\":\"/x/y\",\"newFileName\":\"z.bin\",\"storageId\":4}");
    assert_eq!(
        transfer_json(5, &["/l/a".to_string(), "/l/b".to_string()], "/r"),
        "{\"destination\":\"/r\",\"preprocessFiles\":true,\"sources\":[\"/l/a\",\"/l/b\"],\"storageId\":5}"
    );
}

#[test]
fn envelopes_are_read_by_error_type_and_error() {
    let ok = envelope("", "", JsonValue::Bool(true));
    assert!(payload_ok(&ok));
    let bad = envelope("FileNotFound", "no such file", JsonValue::Null);
    assert!(!payload_ok(&bad));
    assert_eq!(payload_error(&bad, "raw"), "no such file");
    let quiet = envelope("X", "", JsonValue::Null);
    assert_eq!(payload_error(&quiet, "raw text"), "raw text");
    assert!(!payload_ok(&None));
    assert_eq!(payload_error(&None, "not json"), "not json");
    assert!(!payload_ok(&Some(JsonValue::Array(vec![]))));
}

#[test]
fn storage_id_comes_from_the_first_entry_unless_overridden() {
    assert_eq!(parse_sid(&envelope("", "", storages(65537)), None), Some(65537));
    assert_eq!(parse_sid(&envelope("", "", storages(65537)), Some(9)), Some(9));
    assert_eq!(parse_sid(&None, Some(9)), Some(9));
    assert_eq!(parse_sid(&envelope("Locked", "x", storages(65537)), None), None);
    assert_eq!(parse_sid(&envelope("", "", JsonValue::Array(vec![])), None), None);
    assert_eq!(parse_sid(&envelope("", "", storages(0x1_0000_0002)), None), Some(2));
    assert_eq!(storage_from_payload(&envelope("", "", storages(65537)), "p"), Ok(65537));
    assert_eq!(
        storage_from_payload(&envelope("", "", storages(0)), "{p}"),
        Err("FetchStorages returned no storage: {p}".to_string())
    );
}

#[test]
fn report_lines() {
    let ok = envelope("", "", JsonValue::Bool(true));
    let bad = envelope("E", "boom", JsonValue::Null);
    assert_eq!(step_line("Walk /", &ok, "{}"), "  \u{2713} Walk /");
    assert_eq!(step_line("Walk /", &bad, "{}"), "  \u{2717} Walk /: boom");
    assert_eq!(report_line("upload", &ok, "{}"), "  upload ok");
    assert_eq!(report_line("download", &None, "garbage"), "  download -> garbage");
    assert_eq!(soak_remote("tree"), "/Download/keel-soak/tree");
}
