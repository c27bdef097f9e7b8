use keel::conformance::{
    fill, golden_script, is_volatile_key, json_escape, parse_args, replace_all, result_line, sid_after, step_input,
    step_verdict, Args, Env, Op, ORACLE_USAGE,
};
use keel::json_diff::{CbKind, Event};
use keel::json_tree::{JsonNumber, JsonValue};

#[test]
fn fill_substitutes_placeholders() {
    let env = Env { src_dir: "/tmp/a b".into(), dl_dir: "/tmp/dl".into() };
    let s = fill(r#"{"storageId":{SID},"sources":["{SRC}"]}"#, 65537, &env);
    assert_eq!(s, r#"{"storageId":65537,"sources":["/tmp/a b"]}"#);
}

#[test]
fn fill_escapes_directories_and_replaces_every_occurrence() {
    let env = Env { src_dir: "C:\\dir \"x\"".into(), dl_dir: "/dl".into() };
    let s = fill("{SID}/{SID} {SRC} {DL}{DL}", 7, &env);
    assert_eq!(s, "7/7 C:\\\\dir \\\"x\\\" /dl/dl");
}

#[test]
fn replace_all_is_left_to_right_and_non_overlapping() {
    assert_eq!(replace_all("aaaa", "aa", "b"), "bb");
    assert_eq!(replace_all("abcabc", "c", ""), "abab");
    assert_eq!(replace_all("xyz", "q", "r"), "xyz");
    assert_eq!(replace_all("", "a", "b"), "");
}

#[test]
fn json_escape_doubles_backslashes_before_quotes() {
    assert_eq!(json_escape("a\\\"b"), "a\\\\\\\"b");
    assert_eq!(json_escape("plain"), "plain");
}

#[test]
fn volatile_keys() {
    assert!(is_volatile_key("elapsedTime"));
    assert!(is_volatile_key("speed"));
    assert!(is_volatile_key("FreeSpaceInBytes"));
    assert!(is_volatile_key("lastModTIME"));
    assert!(!is_volatile_key("name"));
    assert!(!is_volatile_key("size"));
    assert!(!is_volatile_key("tim"));
}

#[test]
fn golden_script_shape() {
    let s = golden_script();
    assert_eq!(s.len(), 17);
    assert!(matches!(s[0].op, Op::Initialize));
    assert!(matches!(s[16].op, Op::Dispose));
    assert_eq!(s.iter().filter(|st| st.expect_divergence).count(), 1);
    assert!(s[9].expect_divergence);
    for st in &s {
        match st.op {
            Op::Initialize | Op::FetchDeviceInfo | Op::FetchStorages | Op::Dispose => {}
            Op::MakeDirectory(t)
            | Op::FileExists(t)
            | Op::DeleteFile(t)
            | Op::RenameFile(t)
            | Op::Walk(t)
            | Op::UploadFiles(t)
            | Op::DownloadFiles(t) => assert!(t.contains("{SID}"), "{}", st.name),
        }
    }
}

fn strings(xs: &[&str]) -> Vec<String> {
    xs.iter().map(|s| s.to_string()).collect()
}

#[test]
fn oracle_args_take_both_kernels_and_options() {
    let a = parse_args(&strings(&["--go", "g.dylib", "--rust", "r.dylib", "--dump", "/tmp/d", "--keep"])).unwrap();
    assert_eq!(a, Args { go: "g.dylib".into(), rust: "r.dylib".into(), dump: Some("/tmp/d".into()), keep: true });
    let b = parse_args(&strings(&["--rust", "r", "--go", "g1", "--go", "g2"])).unwrap();
    assert_eq!((b.go.as_str(), b.rust.as_str(), b.dump, b.keep), ("g2", "r", None, false));
}

#[test]
fn oracle_args_errors() {
    assert_eq!(parse_args(&strings(&["--go"])), Err("--go needs a path".to_string()));
    assert_eq!(parse_args(&strings(&["--go", "g", "--dump"])), Err("--dump needs a dir".to_string()));
    assert_eq!(parse_args(&strings(&["--go", "g", "-h", "--bogus"])), Err("help".to_string()));
    assert_eq!(parse_args(&strings(&["--bogus"])), Err("unknown arg: --bogus".to_string()));
    assert_eq!(
        parse_args(&strings(&["--rust", "r"])),
        Err("missing --go <path to the reference kernel dylib>".to_string())
    );
    assert_eq!(parse_args(&strings(&["--go", "g"])), Err("missing --rust <path to libkeel.dylib>".to_string()));
    assert!(ORACLE_USAGE.contains("--keep"));
}

#[test]
fn step_inputs_fill_templates_and_sid_follows_fetch_storages() {
    let env = Env { src_dir: "/s".into(), dl_dir: "/d".into() };
    assert_eq!(step_input(Op::Initialize, 7, &env), None);
    assert_eq!(step_input(Op::Walk("{\"storageId\":{SID},\"fullPath\":\"{SRC}\"}"), 7, &env),
        Some("{\"storageId\":7,\"fullPath\":\"/s\"}".to_string()));
    let ev = Event {
        kind: CbKind::Done,
        raw: String::new(),
        value: Some(JsonValue::Object(vec![(
            "data".to_string(),
            JsonValue::Array(vec![JsonValue::Object(vec![(
                "Sid".to_string(),
                JsonValue::Number(JsonNumber::PosInt(131073)),
            )])]),
        )])),
    };
    assert_eq!(sid_after(Op::FetchStorages, &[ev], 65537), 131073);
    assert_eq!(sid_after(Op::FetchStorages, &[], 65537), 65537);
    let ev2 = Event { kind: CbKind::Done, raw: "x".to_string(), value: None };
    assert_eq!(sid_after(Op::Dispose, &[ev2], 9), 9);
}

#[test]
fn verdicts_and_result_line() {
    assert_eq!(step_verdict(true, false), ("PASS", false));
    assert_eq!(step_verdict(true, true).1, false);
    assert!(step_verdict(true, true).0.starts_with("PASS (expected divergence NOT observed"));
    assert_eq!(step_verdict(false, true), ("EXPECTED DIVERGENCE (keel correct)", false));
    assert_eq!(step_verdict(false, false), ("DIVERGENCE", true));
    assert_eq!(result_line(0, 17), "RESULT: PARITY (17 steps; intentional divergences excluded)");
    assert_eq!(result_line(2, 17), "RESULT: 2 DIVERGENCE(S) of 17 steps");
}
