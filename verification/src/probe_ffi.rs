//! The probe's C-ABI mode: the JSON inputs it hands the kernel's exports,
//! and how it reads the envelopes the kernel answers with.
use vstd::prelude::*;

use crate::decimal::{dec, push_dec};
use crate::ffi::json::{json_array, json_join, lemma_join_step};
use crate::ffi::json_text::{json_bool, json_str, push_bool, push_json_str};
use crate::json_diff::{lookup, lemma_split_plain, pointer, split_slash};
use crate::json_tree::{JsonNumber, JsonValue};
use crate::probe::strings_view;

verus! {

/// The device folder the scripted golden session works in.
pub const GOLDEN_BASE: &'static str = "/Download/keel-golden-test";

/// The device folder the soak loop uploads into.
pub const SOAK_BASE: &'static str = "/Download/keel-soak";

/// The JSON string array of `xs`.
pub open spec fn strings_json(xs: Seq<Seq<char>>) -> Seq<char> {
    json_array(xs.map_values(|x: Seq<char>| json_str(x)))
}

/// The Walk input: keys in order, hidden files skipped, disallowed ones
/// not.
pub open spec fn walk_input(sid: u32, path: Seq<char>, recursive: bool) -> Seq<char> {
    "{\"fullPath\":"@ + json_str(path) + ",\"recursive\":"@ + json_bool(recursive)
        + ",\"skipDisallowedFiles\":false,\"skipHiddenFiles\":true,\"storageId\":"@ + dec(sid as nat) + "}"@
}

/// The FileExists and DeleteFile input: the paths under `files`.
pub open spec fn files_input(sid: u32, paths: Seq<Seq<char>>) -> Seq<char> {
    "{\"files\":"@ + strings_json(paths) + ",\"storageId\":"@ + dec(sid as nat) + "}"@
}

/// The MakeDirectory input.
pub open spec fn mkdir_input(sid: u32, path: Seq<char>) -> Seq<char> {
    "{\"fullPath\":"@ + json_str(path) + ",\"storageId\":"@ + dec(sid as nat) + "}"@
}

/// The RenameFile input.
pub open spec fn rename_input(sid: u32, path: Seq<char>, new_name: Seq<char>) -> Seq<char> {
    "{\"fullPath\":"@ + json_str(path) + ",\"newFileName\":"@ + json_str(new_name) + ",\"storageId\":"@ + dec(
        sid as nat,
    ) + "}"@
}

/// The UploadFiles and DownloadFiles input, with preprocessing on.
pub open spec fn transfer_input(sid: u32, sources: Seq<Seq<char>>, dest: Seq<char>) -> Seq<char> {
    "{\"destination\":"@ + json_str(dest) + ",\"preprocessFiles\":true,\"sources\":"@ + strings_json(sources)
        + ",\"storageId\":"@ + dec(sid as nat) + "}"@
}

/// Append the JSON string array of `xs` (see [`strings_json`]).
fn push_strings(out: &mut String, xs: &[String])
    ensures
        final(out)@ == old(out)@ + strings_json(strings_view(xs@)),
{
    let ghost parts = strings_view(xs@).map_values(|x: Seq<char>| json_str(x));
    let ghost start = out@;
    out.append("[");
    proof {
        reveal_strlit("[");
        assert(parts.take(0) =~= Seq::<Seq<char>>::empty());
        assert(out@ =~= start + seq!['['] + json_join(parts.take(0)));
    }
    let mut i: usize = 0;
    while i < xs.len()
        invariant
            0 <= i <= xs@.len(),
            parts == strings_view(xs@).map_values(|x: Seq<char>| json_str(x)),
            out@ == start + seq!['['] + json_join(parts.take(i as int)),
        decreases xs@.len() - i,
    {
        if i > 0 {
            out.append(",");
        }
        push_json_str(out, xs[i].as_str());
        proof {
            reveal_strlit(",");
            lemma_join_step(parts, i as int);
            assert(parts[i as int] == json_str(xs@[i as int]@));
            assert(out@ =~= start + seq!['['] + json_join(parts.take(i + 1)));
        }
        i = i + 1;
    }
    out.append("]");
    proof {
        reveal_strlit("]");
        assert(parts.take(xs@.len() as int) =~= parts);
        assert(out@ =~= start + strings_json(strings_view(xs@)));
    }
}

/// The Walk input (see [`walk_input`]).
pub fn walk_json(sid: u32, path: &str, recursive: bool) -> (s: String)
    ensures
        s@ == walk_input(sid, path@, recursive),
{
    let mut s = String::new();
    s.append("{\"fullPath\":");
    push_json_str(&mut s, path);
    s.append(",\"recursive\":");
    push_bool(&mut s, recursive);
    s.append(",\"skipDisallowedFiles\":false,\"skipHiddenFiles\":true,\"storageId\":");
    push_dec(&mut s, sid as u64);
    s.append("}");
    proof {
        assert(s@ =~= walk_input(sid, path@, recursive));
    }
    s
}

/// The FileExists input (see [`files_input`]).
pub fn exists_json(sid: u32, paths: &[String]) -> (s: String)
    ensures
        s@ == files_input(sid, strings_view(paths@)),
{
    let mut s = String::new();
    s.append("{\"files\":");
    push_strings(&mut s, paths);
    s.append(",\"storageId\":");
    push_dec(&mut s, sid as u64);
    s.append("}");
    proof {
        assert(s@ =~= files_input(sid, strings_view(paths@)));
    }
    s
}

/// The DeleteFile input (see [`files_input`]).
pub fn delete_json(sid: u32, paths: &[String]) -> (s: String)
    ensures
        s@ == files_input(sid, strings_view(paths@)),
{
    exists_json(sid, paths)
}

/// The MakeDirectory input (see [`mkdir_input`]).
pub fn mkdir_json(sid: u32, path: &str) -> (s: String)
    ensures
        s@ == mkdir_input(sid, path@),
{
    let mut s = String::new();
    s.append("{\"fullPath\":");
    push_json_str(&mut s, path);
    s.append(",\"storageId\":");
    push_dec(&mut s, sid as u64);
    s.append("}");
    proof {
        assert(s@ =~= mkdir_input(sid, path@));
    }
    s
}

/// The RenameFile input (see [`rename_input`]).
pub fn rename_json(sid: u32, path: &str, new_name: &str) -> (s: String)
    ensures
        s@ == rename_input(sid, path@, new_name@),
{
    let mut s = String::new();
    s.append("{\"fullPath\":");
    push_json_str(&mut s, path);
    s.append(",\"newFileName\":");
    push_json_str(&mut s, new_name);
    s.append(",\"storageId\":");
    push_dec(&mut s, sid as u64);
    s.append("}");
    proof {
        assert(s@ =~= rename_input(sid, path@, new_name@));
    }
    s
}

/// The UploadFiles and DownloadFiles input (see [`transfer_input`]).
pub fn transfer_json(sid: u32, sources: &[String], dest: &str) -> (s: String)
    ensures
        s@ == transfer_input(sid, strings_view(sources@), dest@),
{
    let mut s = String::new();
    s.append("{\"destination\":");
    push_json_str(&mut s, dest);
    s.append(",\"preprocessFiles\":true,\"sources\":");
    push_strings(&mut s, sources);
    s.append(",\"storageId\":");
    push_dec(&mut s, sid as u64);
    s.append("}");
    proof {
        assert(s@ =~= transfer_input(sid, strings_view(sources@), dest@));
    }
    s
}

/// The string under `key` of an object.
pub open spec fn str_field(v: JsonValue, key: Seq<char>) -> Option<Seq<char>> {
    match lookup(v, seq![key]) {
        Some(JsonValue::Str(t)) => Some(t@),
        _ => None,
    }
}

/// A payload reports success: it parsed, and its `errorType` is the empty
/// string.
pub open spec fn payload_ok_spec(parsed: Option<JsonValue>) -> bool {
    match parsed {
        Some(v) => str_field(v, "errorType"@) == Some(Seq::<char>::empty()),
        None => false,
    }
}

/// What to show for a failed payload: its `error` string when that is
/// non-empty, else the payload's whole text.
pub open spec fn payload_error_spec(parsed: Option<JsonValue>, raw: Seq<char>) -> Seq<char> {
    match parsed {
        Some(v) => match str_field(v, "error"@) {
            Some(e) => if e.len() > 0 {
                e
            } else {
                raw
            },
            None => raw,
        },
        None => raw,
    }
}

/// The storage id to use: the override when given; otherwise, from a
/// FetchStorages payload without an error type, the `Sid` of the first
/// entry of `data` when it is a non-negative integer, cut to 32 bits.
pub open spec fn parse_sid_spec(parsed: Option<JsonValue>, storage: Option<u32>) -> Option<u32> {
    match storage {
        Some(s) => Some(s),
        None => match parsed {
            None => None,
            Some(v) => if str_field(v, "errorType"@) matches Some(t) && t.len() > 0 {
                None
            } else {
                match lookup(v, seq!["data"@]) {
                    Some(JsonValue::Array(a)) => if a@.len() == 0 {
                        None
                    } else {
                        match lookup(a@[0], seq!["Sid"@]) {
                            Some(JsonValue::Number(JsonNumber::PosInt(n))) => Some(n as u32),
                            _ => None,
                        }
                    },
                    _ => None,
                }
            },
        },
    }
}

/// The string under `key` of an object (see [`str_field`]).
fn string_field<'a>(v: &'a JsonValue, key: &str) -> (r: Option<&'a String>)
    requires
        forall|i: int| 0 <= i < key@.len() ==> key@[i] != '/',
    ensures
        match r {
            Some(t) => str_field(*v, key@) == Some(t@),
            None => str_field(*v, key@) is None,
        },
{
    proof {
        lemma_split_plain(key@, Seq::empty());
        assert(Seq::<char>::empty() + key@ =~= key@);
    }
    match pointer(v, key) {
        Some(JsonValue::Str(t)) => Some(t),
        _ => None,
    }
}

/// Whether a payload reports success (see [`payload_ok_spec`]).
pub fn payload_ok(parsed: &Option<JsonValue>) -> (b: bool)
    ensures
        b == payload_ok_spec(*parsed),
{
    proof {
        reveal_strlit("errorType");
    }
    match parsed {
        Some(v) => match string_field(v, "errorType") {
            Some(t) => {
                proof {
                    if t@.len() == 0 {
                        assert(t@ =~= Seq::<char>::empty());
                    }
                }
                t.as_str().is_empty()
            },
            None => false,
        },
        None => false,
    }
}

/// What to show for a failed payload (see [`payload_error_spec`]).
pub fn payload_error(parsed: &Option<JsonValue>, raw: &str) -> (s: String)
    ensures
        s@ == payload_error_spec(*parsed, raw@),
{
    proof {
        reveal_strlit("error");
    }
    match parsed {
        Some(v) => match string_field(v, "error") {
            Some(e) => if !e.as_str().is_empty() {
                e.clone()
            } else {
                raw.to_owned()
            },
            None => raw.to_owned(),
        },
        None => raw.to_owned(),
    }
}

/// The storage id to use (see [`parse_sid_spec`]).
pub fn parse_sid(parsed: &Option<JsonValue>, storage: Option<u32>) -> (r: Option<u32>)
    ensures
        r == parse_sid_spec(*parsed, storage),
{
    proof {
        reveal_strlit("errorType");
        reveal_strlit("data");
        reveal_strlit("Sid");
    }
    if let Some(s) = storage {
        return Some(s);
    }
    let v = match parsed {
        Some(v) => v,
        None => return None,
    };
    match string_field(v, "errorType") {
        Some(t) => if !t.as_str().is_empty() {
            return None;
        },
        None => {},
    }
    proof {
        lemma_split_plain("data"@, Seq::empty());
        lemma_split_plain("Sid"@, Seq::empty());
        assert(Seq::<char>::empty() + "data"@ =~= "data"@);
        assert(Seq::<char>::empty() + "Sid"@ =~= "Sid"@);
    }
    match pointer(v, "data") {
        Some(JsonValue::Array(a)) => {
            if a.len() == 0 {
                return None;
            }
            match pointer(&a[0], "Sid") {
                Some(JsonValue::Number(JsonNumber::PosInt(n))) => Some(#[verifier::truncate] (*n as u32)),
                _ => None,
            }
        },
        _ => None,
    }
}

/// The storage id a FetchStorages payload gives, when it is not zero; else
/// the message naming the payload.
pub fn storage_from_payload(parsed: &Option<JsonValue>, raw: &str) -> (r: Result<u32, String>)
    ensures
        match parse_sid_spec(*parsed, None) {
            Some(s) if s != 0 => r == Ok::<u32, String>(s),
            _ => r matches Err(m) && m@ == "FetchStorages returned no storage: "@ + raw@,
        },
{
    match parse_sid(parsed, None) {
        Some(s) => if s != 0 {
            return Ok(s);
        },
        None => {},
    }
    let mut m = String::new();
    m.append("FetchStorages returned no storage: ");
    m.append(raw);
    proof {
        assert(m@ =~= "FetchStorages returned no storage: "@ + raw@);
    }
    Err(m)
}

/// A golden step's line: a tick and its name on success, else a cross, its
/// name and the error.
pub open spec fn step_line_spec(name: Seq<char>, parsed: Option<JsonValue>, raw: Seq<char>) -> Seq<char> {
    if payload_ok_spec(parsed) {
        "  \u{2713} "@ + name
    } else {
        "  \u{2717} "@ + name + ": "@ + payload_error_spec(parsed, raw)
    }
}

/// A golden step's line (see [`step_line_spec`]).
pub fn step_line(name: &str, parsed: &Option<JsonValue>, raw: &str) -> (s: String)
    ensures
        s@ == step_line_spec(name@, *parsed, raw@),
{
    let mut s = String::new();
    if payload_ok(parsed) {
        s.append("  \u{2713} ");
        s.append(name);
    } else {
        s.append("  \u{2717} ");
        s.append(name);
        s.append(": ");
        let e = payload_error(parsed, raw);
        s.append(e.as_str());
    }
    proof {
        assert(s@ =~= step_line_spec(name@, *parsed, raw@));
    }
    s
}

/// A soak transfer's line: `ok` on success, else the error.
pub open spec fn report_line_spec(label: Seq<char>, parsed: Option<JsonValue>, raw: Seq<char>) -> Seq<char> {
    if payload_ok_spec(parsed) {
        "  "@ + label + " ok"@
    } else {
        "  "@ + label + " -> "@ + payload_error_spec(parsed, raw)
    }
}

/// A soak transfer's line (see [`report_line_spec`]).
pub fn report_line(label: &str, parsed: &Option<JsonValue>, raw: &str) -> (s: String)
    ensures
        s@ == report_line_spec(label@, *parsed, raw@),
{
    let mut s = String::new();
    s.append("  ");
    s.append(label);
    if payload_ok(parsed) {
        s.append(" ok");
    } else {
        s.append(" -> ");
        let e = payload_error(parsed, raw);
        s.append(e.as_str());
    }
    proof {
        assert(s@ =~= report_line_spec(label@, *parsed, raw@));
    }
    s
}

/// Where the soak loop downloads from: the soak folder and the tree's base
/// name.
pub fn soak_remote(name: &str) -> (s: String)
    ensures
        s@ == SOAK_BASE@ + seq!['/'] + name@,
{
    let mut s = String::new();
    s.append(SOAK_BASE);
    s.append("/");
    s.append(name);
    proof {
        reveal_strlit("/");
        assert(s@ =~= SOAK_BASE@ + seq!['/'] + name@);
    }
    s
}

} // verus!
