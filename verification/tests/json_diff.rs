use keel::json_diff::{
    diff_sampled_stream, diff_step, diff_value, extract_sid, key_skeleton, normalize, numbers_match, pointer, short,
    CbKind, CloseNumbers, Event, FieldDiff, StepCapture,
};
use keel::json_tree::{push_render, JsonNumber, JsonValue};

fn num(n: u64) -> JsonValue {
    JsonValue::Number(JsonNumber::PosInt(n))
}

fn neg(n: i64) -> JsonValue {
    JsonValue::Number(JsonNumber::NegInt(n))
}

fn float(t: &str) -> JsonValue {
    JsonValue::Number(JsonNumber::Float(t.to_string()))
}

fn text(s: &str) -> JsonValue {
    JsonValue::Str(s.to_string())
}

fn obj(entries: Vec<(&str, JsonValue)>) -> JsonValue {
    JsonValue::Object(entries.into_iter().map(|(k, v)| (k.to_string(), v)).collect())
}

fn arr(items: Vec<JsonValue>) -> JsonValue {
    JsonValue::Array(items)
}

fn number_texts(v: &JsonValue, out: &mut Vec<String>) {
    match v {
        JsonValue::Number(JsonNumber::PosInt(u)) => out.push(u.to_string()),
        JsonValue::Number(JsonNumber::NegInt(i)) => out.push(i.to_string()),
        JsonValue::Number(JsonNumber::Float(t)) => out.push(t.clone()),
        JsonValue::Array(a) => a.iter().for_each(|x| number_texts(x, out)),
        JsonValue::Object(m) => m.iter().for_each(|(_, x)| number_texts(x, out)),
        _ => {}
    }
}

/// The pairs within the oracle's tolerance (1e-6 absolute + 1e-4 relative).
fn close_of(go: &[&JsonValue], rust: &[&JsonValue]) -> CloseNumbers {
    let (mut gt, mut rt) = (Vec::new(), Vec::new());
    go.iter().for_each(|v| number_texts(v, &mut gt));
    rust.iter().for_each(|v| number_texts(v, &mut rt));
    let mut pairs = Vec::new();
    for a in &gt {
        for b in &rt {
            let (x, y): (f64, f64) = (a.parse().unwrap(), b.parse().unwrap());
            if (x - y).abs() <= 1e-6 + 1e-4 * x.abs().max(y.abs()) {
                pairs.push((a.clone(), b.clone()));
            }
        }
    }
    CloseNumbers { pairs }
}

fn diff(a: JsonValue, b: JsonValue) -> Vec<FieldDiff> {
    let close = close_of(&[&a], &[&b]);
    let mut out = Vec::new();
    diff_value("", &a, &b, &close, &mut out);
    out
}

#[test]
fn identical_objects_no_diff() {
    assert!(diff(obj(vec![("a", num(1)), ("b", text("x"))]), obj(vec![("a", num(1)), ("b", text("x"))])).is_empty());
}

#[test]
fn volatile_keys_normalized_away() {
    let mut a = obj(vec![
        ("speed", float("9.63")),
        ("elapsedTime", num(1502)),
        ("dateAdded", text("2026-07-12T23:26:21.000Z")),
        ("name", text("x")),
    ]);
    let mut b = obj(vec![
        ("speed", float("0.0")),
        ("elapsedTime", num(9999)),
        ("dateAdded", text("2001-01-01T00:00:00.000Z")),
        ("name", text("x")),
    ]);
    normalize(&mut a);
    normalize(&mut b);
    assert!(diff(a, b).is_empty(), "volatile fields must not diverge");
}

#[test]
fn object_id_normalized_but_name_is_not() {
    let mut go = obj(vec![("name", text("note-\u{fe0f}.txt")), ("objectId", num(474)), ("parentId", num(0))]);
    let mut rs = obj(vec![("name", text("note-\u{1f6f3}\u{fe0f}.txt")), ("objectId", num(991)), ("parentId", num(7))]);
    normalize(&mut go);
    normalize(&mut rs);
    let d = diff(go, rs);
    assert_eq!(d.len(), 1);
    assert_eq!(d[0].path, "/name");
}

#[test]
fn float_formatting_tolerated_but_real_gap_caught() {
    assert!(diff(obj(vec![("p", float("83.330971"))]), obj(vec![("p", float("83.33097"))])).is_empty());
    assert_eq!(diff(obj(vec![("p", float("83.3"))]), obj(vec![("p", float("84.5"))])).len(), 1);
}

#[test]
fn integers_compared_exactly() {
    assert_eq!(diff(obj(vec![("size", num(300000))]), obj(vec![("size", num(300001))])).len(), 1);
}

#[test]
fn exact_key_casing() {
    let d = diff(obj(vec![("Sid", num(65537))]), obj(vec![("sid", num(65537))]));
    assert_eq!(d.len(), 2);
}

#[test]
fn array_length_and_element_diff() {
    let d = diff(arr(vec![num(1), num(2), num(3)]), arr(vec![num(1), num(9)]));
    assert_eq!(d.len(), 2);
}

#[test]
fn missing_key_reported() {
    let d = diff(obj(vec![("a", num(1)), ("b", num(2))]), obj(vec![("a", num(1))]));
    assert_eq!(d.len(), 1);
    assert_eq!(d[0].path, "/b");
}

#[test]
fn type_mismatch_reported() {
    let d = diff(obj(vec![("data", JsonValue::Null)]), obj(vec![("data", arr(vec![]))]));
    assert_eq!(d.len(), 1);
    assert_eq!(d[0].note, "type mismatch");
}

#[test]
fn key_skeleton_ignores_values_and_counts() {
    let a = obj(vec![("activeFileSize", obj(vec![("sent", num(51)), ("total", num(51))])), ("status", text("InProgress"))]);
    let b = obj(vec![
        ("activeFileSize", obj(vec![("sent", num(700000)), ("total", num(1500000))])),
        ("status", text("Completed")),
    ]);
    let (mut sa, mut sb) = (Vec::new(), Vec::new());
    key_skeleton(&a, "", &mut sa);
    key_skeleton(&b, "", &mut sb);
    sa.sort();
    sb.sort();
    assert_eq!(sa, sb, "same schema regardless of values");
}

#[test]
fn pointer_navigates_nested() {
    let v = obj(vec![("bulkFileSize", obj(vec![("total", num(1800051))]))]);
    assert!(matches!(pointer(&v, "bulkFileSize/total"), Some(JsonValue::Number(JsonNumber::PosInt(1800051)))));
    assert!(pointer(&v, "bulkFileSize/missing").is_none());
}

fn progress(files_sent: u64, total_files: u64) -> JsonValue {
    obj(vec![
        ("bulkFileSize", obj(vec![("total", num(1800051))])),
        ("filesSent", num(files_sent)),
        ("totalDirectories", num(2)),
        ("totalFiles", num(total_files)),
    ])
}

#[test]
fn sampled_stream_ignores_count_and_volatile_but_checks_totals() {
    let g1 = progress(1, 3);
    let g2 = progress(2, 3);
    let r1 = progress(3, 3);
    let (go, rust): (Vec<&JsonValue>, Vec<&JsonValue>) = (vec![&g1, &g2], vec![&r1]);
    let close = close_of(&go, &rust);
    let (mut out, mut infos) = (Vec::new(), Vec::new());
    diff_sampled_stream("progress", &go, &rust, &["totalFiles", "bulkFileSize/total"], &close, &mut out, &mut infos);
    assert!(out.is_empty(), "sampled stream should not diverge on count/volatile");
    assert_eq!(infos.len(), 1);
}

#[test]
fn sampled_stream_flags_wrong_total() {
    let g = obj(vec![("totalFiles", num(3))]);
    let r = obj(vec![("totalFiles", num(2))]);
    let close = close_of(&[&g], &[&r]);
    let (mut out, mut infos) = (Vec::new(), Vec::new());
    diff_sampled_stream("progress", &[&g], &[&r], &["totalFiles"], &close, &mut out, &mut infos);
    assert_eq!(out.len(), 1);
}

#[test]
fn sampled_stream_presence_parity() {
    let g = obj(vec![("x", num(1))]);
    let close = CloseNumbers { pairs: Vec::new() };
    let (mut out, mut infos) = (Vec::new(), Vec::new());
    diff_sampled_stream("preprocess", &[&g], &[], &[], &close, &mut out, &mut infos);
    assert_eq!(out.len(), 1);
}

#[test]
fn extract_sid_reads_pascalcase() {
    let ev = Event {
        kind: CbKind::Done,
        raw: String::new(),
        value: Some(obj(vec![("data", arr(vec![obj(vec![("Info", obj(vec![])), ("Sid", num(65537))])]))])),
    };
    assert_eq!(extract_sid(&[ev]), Some(65537));
}

#[test]
fn diff_reports_in_key_order_with_both_texts() {
    let d = diff(obj(vec![("b", num(1)), ("a", text("q\"r"))]), obj(vec![("c", arr(vec![num(1), JsonValue::Bool(true)]))]));
    assert_eq!(d.len(), 3);
    assert_eq!((d[0].path.as_str(), d[0].go.as_str(), d[0].rust.as_str()), ("/a", "\"q\\\"r\"", "<absent>"));
    assert_eq!(d[0].note, "key present in go, absent in rust");
    assert_eq!((d[1].path.as_str(), d[1].go.as_str()), ("/b", "1"));
    assert_eq!((d[2].path.as_str(), d[2].go.as_str(), d[2].rust.as_str()), ("/c", "<absent>", "[1,true]"));
    assert_eq!(d[2].note, "key present in rust, absent in go");
}

#[test]
fn array_differences_carry_lengths_and_indices() {
    let d = diff(arr(vec![num(1), num(2), num(3)]), arr(vec![num(1), num(9)]));
    assert_eq!((d[0].path.as_str(), d[0].go.as_str(), d[0].rust.as_str()), ("", "<array len 3>", "<array len 2>"));
    assert_eq!(d[0].note, "array length mismatch");
    assert_eq!((d[1].path.as_str(), d[1].go.as_str(), d[1].rust.as_str()), ("/1", "2", "9"));
    assert_eq!(d[1].note, "value mismatch");
}

#[test]
fn numbers_of_the_two_integer_kinds_compare_by_value() {
    let none = CloseNumbers { pairs: Vec::new() };
    assert!(numbers_match(&JsonNumber::NegInt(5), &JsonNumber::PosInt(5), &none));
    assert!(!numbers_match(&JsonNumber::NegInt(-5), &JsonNumber::PosInt(5), &none));
    assert!(numbers_match(&JsonNumber::PosInt(u64::MAX), &JsonNumber::PosInt(u64::MAX), &none));
    assert!(!numbers_match(&JsonNumber::NegInt(-1), &JsonNumber::PosInt(u64::MAX), &none));
    // An integer against a float goes through the caller's judgement.
    assert!(!numbers_match(&JsonNumber::PosInt(3), &JsonNumber::Float("3.0".to_string()), &none));
    let close = CloseNumbers { pairs: vec![("3".to_string(), "3.0".to_string())] };
    assert!(numbers_match(&JsonNumber::PosInt(3), &JsonNumber::Float("3.0".to_string()), &close));
    assert_eq!(diff(neg(-2), num(2)).len(), 1);
}

#[test]
fn long_values_are_cut_at_a_character_boundary() {
    let long = text(&"\u{e9}".repeat(150));
    let s = short(&long);
    // The quote takes one byte, then 99 two-byte characters fit in 200 bytes.
    assert_eq!(s.chars().count(), 1 + 99 + 1);
    assert!(s.ends_with('\u{2026}'));
    assert_eq!(short(&text("ab")), "\"ab\"");
}

#[test]
fn render_is_compact_json() {
    let v = obj(vec![("a", arr(vec![num(1), neg(-2), float("0.5"), JsonValue::Null])), ("b", JsonValue::Bool(false))]);
    let mut s = String::new();
    push_render(&mut s, &v);
    assert_eq!(s, "{\"a\":[1,-2,0.5,null],\"b\":false}");
}

#[test]
fn normalize_reaches_into_arrays_and_any_time_key() {
    let mut v = arr(vec![obj(vec![("lastModTIME", num(1)), ("inner", obj(vec![("speed", float("1.5")), ("k", num(2))]))])]);
    normalize(&mut v);
    let mut s = String::new();
    push_render(&mut s, &v);
    assert_eq!(s, "[{\"lastModTIME\":null,\"inner\":{\"speed\":null,\"k\":2}}]");
}

#[test]
fn pointer_splits_on_every_slash_and_needs_objects() {
    let v = obj(vec![("", obj(vec![("x", num(1))])), ("a", arr(vec![num(5)]))]);
    assert!(matches!(pointer(&v, "/x"), Some(JsonValue::Number(JsonNumber::PosInt(1)))));
    assert!(pointer(&v, "a/0").is_none());
}

#[test]
fn step_diffs_raw_text_then_streams() {
    let go = StepCapture {
        events: vec![
            Event { kind: CbKind::Done, value: None, raw: "not json".to_string() },
            Event { kind: CbKind::Progress, value: Some(obj(vec![("totalFiles", num(3))])), raw: "{}".to_string() },
        ],
    };
    let rust = StepCapture {
        events: vec![
            Event { kind: CbKind::Done, value: None, raw: "also not json".to_string() },
            Event { kind: CbKind::Progress, value: Some(obj(vec![("totalFiles", num(4))])), raw: "{}".to_string() },
        ],
    };
    let close = CloseNumbers { pairs: Vec::new() };
    let (d, infos) = diff_step(&go, &rust, &close);
    assert_eq!(d.len(), 2);
    assert_eq!((d[0].path.as_str(), d[0].go.as_str(), d[0].rust.as_str()), ("[raw#0]", "not json", "also not json"));
    assert_eq!(d[0].note, "unparseable payload differs textually");
    assert_eq!(d[1].path, "[progress]/totalFiles");
    assert_eq!(
        infos,
        vec!["progress: go emitted 1, rust emitted 1 (sampled \u{2014} count & intermediate values not compared)".to_string()]
    );
}

#[test]
fn sampled_schema_differences_name_the_side() {
    let g = obj(vec![("a", num(1)), ("b", arr(vec![obj(vec![("c", num(1))])]))]);
    let r = obj(vec![("a", num(1)), ("d", num(2))]);
    let close = CloseNumbers { pairs: Vec::new() };
    let (mut out, mut infos) = (Vec::new(), Vec::new());
    diff_sampled_stream("s", &[&g], &[&r], &[], &close, &mut out, &mut infos);
    let paths: Vec<(&str, &str)> = out.iter().map(|d| (d.path.as_str(), d.note)).collect();
    assert_eq!(
        paths,
        vec![
            ("[s]/b", "schema: key only in go"),
            ("[s]/b/[]/c", "schema: key only in go"),
            ("[s]/d", "schema: key only in rust"),
        ]
    );
}
