//! The conformance oracle's script and text helpers: the golden session it
//! drives through both kernels, filling the placeholders of a scripted
//! input, and which payload keys vary from run to run.
use vstd::prelude::*;
use vstd::string::StringExecFns;
use crate::decimal::{dec, push_dec};
use crate::strings::{occurs_at, str_chars, str_eq, string_of_chars, push_char};
use crate::json_diff::{extract_sid, extract_sid_spec, Event};
use crate::probe::strings_view;

verus! {

/// Which export a scripted step drives, with its templated JSON input.
#[derive(Clone, Copy, Debug, PartialEq, Eq)]
pub enum Op {
    Initialize,
    FetchDeviceInfo,
    FetchStorages,
    Dispose,
    MakeDirectory(&'static str),
    FileExists(&'static str),
    DeleteFile(&'static str),
    RenameFile(&'static str),
    Walk(&'static str),
    UploadFiles(&'static str),
    DownloadFiles(&'static str),
}

/// One step of the golden session.
#[derive(Clone, Copy, Debug, PartialEq, Eq)]
pub struct Step {
    pub name: &'static str,
    /// The golden payload numbers this step reproduces.
    pub fixtures: &'static str,
    pub op: Op,
    /// The two kernels are expected to differ here, because one fixes a bug
    /// of the other.
    pub expect_divergence: bool,
}

/// The export a step drives, as a number in script order of first use:
/// Initialize, FetchDeviceInfo, FetchStorages, Walk, MakeDirectory,
/// FileExists, UploadFiles, RenameFile, DownloadFiles, DeleteFile, Dispose.
pub open spec fn op_kind(op: Op) -> nat {
    match op {
        Op::Initialize => 0,
        Op::FetchDeviceInfo => 1,
        Op::FetchStorages => 2,
        Op::Walk(_) => 3,
        Op::MakeDirectory(_) => 4,
        Op::FileExists(_) => 5,
        Op::UploadFiles(_) => 6,
        Op::RenameFile(_) => 7,
        Op::DownloadFiles(_) => 8,
        Op::DeleteFile(_) => 9,
        Op::Dispose => 10,
    }
}

/// The exports the golden session drives, in order.
pub open spec fn golden_kinds() -> Seq<nat> {
    seq![0, 1, 2, 3, 3, 4, 4, 5, 6, 3, 7, 7, 8, 8, 9, 9, 10]
}

/// The golden session's steps: each one's name, the golden payloads it
/// reproduces, the export it drives with its input template, and whether the
/// two kernels are expected to differ there.
pub open spec fn golden_steps() -> Seq<Step> {
    seq![
        Step {
            name: "Initialize",
            fixtures: "0001",
            op: Op::Initialize,
            expect_divergence: false,
        },
        Step {
            name: "FetchDeviceInfo",
            fixtures: "0002",
            op: Op::FetchDeviceInfo,
            expect_divergence: false,
        },
        Step {
            name: "FetchStorages",
            fixtures: "0003",
            op: Op::FetchStorages,
            expect_divergence: false,
        },
        Step {
            name: "Walk / (non-recursive)",
            fixtures: "0004",
            op: Op::Walk(r#"{"storageId":{SID},"fullPath":"/","recursive":false,"skipDisallowedFiles":true,"skipHiddenFiles":true}"#),
            expect_divergence: false,
        },
        Step {
            name: "Walk /Download (non-recursive)",
            fixtures: "0005",
            op: Op::Walk(r#"{"storageId":{SID},"fullPath":"/Download","recursive":false,"skipDisallowedFiles":true,"skipHiddenFiles":true}"#),
            expect_divergence: false,
        },
        Step {
            name: "MakeDirectory /Download/keel-golden-test",
            fixtures: "0006",
            op: Op::MakeDirectory(r#"{"storageId":{SID},"fullPath":"/Download/keel-golden-test"}"#),
            expect_divergence: false,
        },
        Step {
            name: "MakeDirectory /Download/keel-golden-test (idempotent)",
            fixtures: "0007",
            op: Op::MakeDirectory(r#"{"storageId":{SID},"fullPath":"/Download/keel-golden-test"}"#),
            expect_divergence: false,
        },
        Step {
            name: "FileExists (present + missing)",
            fixtures: "0008",
            op: Op::FileExists(r#"{"storageId":{SID},"Files":["/Download/keel-golden-test","/Download/keel-golden-test/definitely-missing.bin"]}"#),
            expect_divergence: false,
        },
        Step {
            name: "UploadFiles keel-golden-src -> /Download/keel-golden-test",
            fixtures: "0009-0014",
            op: Op::UploadFiles(r#"{"storageId":{SID},"sources":["{SRC}"],"destination":"/Download/keel-golden-test","preprocessFiles":true}"#),
            expect_divergence: false,
        },
        Step {
            name: "Walk /Download/keel-golden-test (recursive, emoji)",
            fixtures: "0015",
            op: Op::Walk(r#"{"storageId":{SID},"fullPath":"/Download/keel-golden-test","recursive":true,"skipDisallowedFiles":true,"skipHiddenFiles":false}"#),
            expect_divergence: true,
        },
        Step {
            name: "RenameFile blob-1.5mb.bin -> blob-renamed.bin",
            fixtures: "0016",
            op: Op::RenameFile(r#"{"storageId":{SID},"fullPath":"/Download/keel-golden-test/keel-golden-src/blob-1.5mb.bin","newFileName":"blob-renamed.bin"}"#),
            expect_divergence: false,
        },
        Step {
            name: "RenameFile blob-renamed.bin -> blob-1.5mb.bin (restore)",
            fixtures: "0017",
            op: Op::RenameFile(r#"{"storageId":{SID},"fullPath":"/Download/keel-golden-test/keel-golden-src/blob-renamed.bin","newFileName":"blob-1.5mb.bin"}"#),
            expect_divergence: false,
        },
        Step {
            name: "DownloadFiles no-such-dir (ErrorInvalidPath)",
            fixtures: "0018",
            op: Op::DownloadFiles(r#"{"storageId":{SID},"sources":["/Download/keel-golden-test/no-such-dir"],"destination":"{DL}","preprocessFiles":true}"#),
            expect_divergence: false,
        },
        Step {
            name: "DownloadFiles no-such-file.bin (ErrorInvalidPath)",
            fixtures: "0019",
            op: Op::DownloadFiles(r#"{"storageId":{SID},"sources":["/Download/keel-golden-test/no-such-file.bin"],"destination":"{DL}","preprocessFiles":true}"#),
            expect_divergence: false,
        },
        Step {
            name: "DeleteFile keel-golden-src (cleanup)",
            fixtures: "0020",
            op: Op::DeleteFile(r#"{"storageId":{SID},"Files":["/Download/keel-golden-test/keel-golden-src"]}"#),
            expect_divergence: false,
        },
        Step {
            name: "DeleteFile keel-golden-test (cleanup)",
            fixtures: "0021",
            op: Op::DeleteFile(r#"{"storageId":{SID},"Files":["/Download/keel-golden-test"]}"#),
            expect_divergence: false,
        },
        Step {
            name: "Dispose",
            fixtures: "0022",
            op: Op::Dispose,
            expect_divergence: false,
        },
    ]
}

/// The golden session: seventeen steps from Initialize to Dispose; only the
/// recursive walk of the uploaded tree (whose emoji name one kernel cannot
/// carry) is expected to differ.
pub fn golden_script() -> (s: Vec<Step>)
    ensures
        s@ == golden_steps(),
        s@.len() == golden_kinds().len(),
        forall|i: int| 0 <= i < s@.len() ==> op_kind(#[trigger] s@[i].op) == golden_kinds()[i],
        forall|i: int| 0 <= i < s@.len() ==> (#[trigger] s@[i].expect_divergence <==> i == 9),
{
    let s = vec![
        Step {
            name: "Initialize",
            fixtures: "0001",
            op: Op::Initialize,
            expect_divergence: false,
        },
        Step {
            name: "FetchDeviceInfo",
            fixtures: "0002",
            op: Op::FetchDeviceInfo,
            expect_divergence: false,
        },
        Step {
            name: "FetchStorages",
            fixtures: "0003",
            op: Op::FetchStorages,
            expect_divergence: false,
        },
        Step {
            name: "Walk / (non-recursive)",
            fixtures: "0004",
            op: Op::Walk(r#"{"storageId":{SID},"fullPath":"/","recursive":false,"skipDisallowedFiles":true,"skipHiddenFiles":true}"#),
            expect_divergence: false,
        },
        Step {
            name: "Walk /Download (non-recursive)",
            fixtures: "0005",
            op: Op::Walk(r#"{"storageId":{SID},"fullPath":"/Download","recursive":false,"skipDisallowedFiles":true,"skipHiddenFiles":true}"#),
            expect_divergence: false,
        },
        Step {
            name: "MakeDirectory /Download/keel-golden-test",
            fixtures: "0006",
            op: Op::MakeDirectory(r#"{"storageId":{SID},"fullPath":"/Download/keel-golden-test"}"#),
            expect_divergence: false,
        },
        Step {
            name: "MakeDirectory /Download/keel-golden-test (idempotent)",
            fixtures: "0007",
            op: Op::MakeDirectory(r#"{"storageId":{SID},"fullPath":"/Download/keel-golden-test"}"#),
            expect_divergence: false,
        },
        Step {
            name: "FileExists (present + missing)",
            fixtures: "0008",
            op: Op::FileExists(r#"{"storageId":{SID},"Files":["/Download/keel-golden-test","/Download/keel-golden-test/definitely-missing.bin"]}"#),
            expect_divergence: false,
        },
        Step {
            name: "UploadFiles keel-golden-src -> /Download/keel-golden-test",
            fixtures: "0009-0014",
            op: Op::UploadFiles(r#"{"storageId":{SID},"sources":["{SRC}"],"destination":"/Download/keel-golden-test","preprocessFiles":true}"#),
            expect_divergence: false,
        },
        Step {
            name: "Walk /Download/keel-golden-test (recursive, emoji)",
            fixtures: "0015",
            op: Op::Walk(r#"{"storageId":{SID},"fullPath":"/Download/keel-golden-test","recursive":true,"skipDisallowedFiles":true,"skipHiddenFiles":false}"#),
            expect_divergence: true,
        },
        Step {
            name: "RenameFile blob-1.5mb.bin -> blob-renamed.bin",
            fixtures: "0016",
            op: Op::RenameFile(r#"{"storageId":{SID},"fullPath":"/Download/keel-golden-test/keel-golden-src/blob-1.5mb.bin","newFileName":"blob-renamed.bin"}"#),
            expect_divergence: false,
        },
        Step {
            name: "RenameFile blob-renamed.bin -> blob-1.5mb.bin (restore)",
            fixtures: "0017",
            op: Op::RenameFile(r#"{"storageId":{SID},"fullPath":"/Download/keel-golden-test/keel-golden-src/blob-renamed.bin","newFileName":"blob-1.5mb.bin"}"#),
            expect_divergence: false,
        },
        Step {
            name: "DownloadFiles no-such-dir (ErrorInvalidPath)",
            fixtures: "0018",
            op: Op::DownloadFiles(r#"{"storageId":{SID},"sources":["/Download/keel-golden-test/no-such-dir"],"destination":"{DL}","preprocessFiles":true}"#),
            expect_divergence: false,
        },
        Step {
            name: "DownloadFiles no-such-file.bin (ErrorInvalidPath)",
            fixtures: "0019",
            op: Op::DownloadFiles(r#"{"storageId":{SID},"sources":["/Download/keel-golden-test/no-such-file.bin"],"destination":"{DL}","preprocessFiles":true}"#),
            expect_divergence: false,
        },
        Step {
            name: "DeleteFile keel-golden-src (cleanup)",
            fixtures: "0020",
            op: Op::DeleteFile(r#"{"storageId":{SID},"Files":["/Download/keel-golden-test/keel-golden-src"]}"#),
            expect_divergence: false,
        },
        Step {
            name: "DeleteFile keel-golden-test (cleanup)",
            fixtures: "0021",
            op: Op::DeleteFile(r#"{"storageId":{SID},"Files":["/Download/keel-golden-test"]}"#),
            expect_divergence: false,
        },
        Step {
            name: "Dispose",
            fixtures: "0022",
            op: Op::Dispose,
            expect_divergence: false,
        },
    ];
    proof {
        assert(s@.len() == golden_kinds().len());
        assert(s@ =~= golden_steps());
    }
    s
}

/// `s` with every non-overlapping occurrence of `pat`, left to right,
/// replaced by `rep` (what `str::replace` does for a non-empty pattern).
pub open spec fn replace_spec(s: Seq<char>, pat: Seq<char>, rep: Seq<char>) -> Seq<char>
    decreases s.len(),
{
    if s.len() == 0 || pat.len() == 0 {
        s
    } else if pat.len() <= s.len() && s.take(pat.len() as int) == pat {
        rep + replace_spec(s.skip(pat.len() as int), pat, rep)
    } else {
        seq![s[0]] + replace_spec(s.drop_first(), pat, rep)
    }
}

/// Replace every occurrence of `pat` in `s` by `rep` (see [`replace_spec`]).
pub fn replace_all(s: &str, pat: &str, rep: &str) -> (r: String)
    requires
        pat@.len() > 0,
    ensures
        r@ == replace_spec(s@, pat@, rep@),
{
    let v = str_chars(s);
    let p = str_chars(pat);
    let q = str_chars(rep);
    let mut out: Vec<char> = Vec::new();
    let mut i: usize = 0;
    proof {
        assert(v@.skip(0) =~= v@);
        assert(Seq::<char>::empty() + replace_spec(v@.skip(0), p@, q@) =~= replace_spec(s@, pat@, rep@));
    }
    while i < v.len()
        invariant
            0 <= i <= v@.len(),
            v@ == s@,
            p@ == pat@,
            q@ == rep@,
            p@.len() > 0,
            out@ + replace_spec(v@.skip(i as int), p@, q@) == replace_spec(s@, pat@, rep@),
        decreases v@.len() - i,
    {
        let ghost rest = v@.skip(i as int);
        let vlen = v.len();
        let mut hit = p.len() <= vlen - i;
        if hit {
            let mut k: usize = 0;
            while k < p.len()
                invariant
                    0 <= k <= p@.len(),
                    vlen == v@.len(),
                    hit ==> i + p@.len() <= v@.len(),
                    hit ==> v@.subrange(i as int, i + k) == p@.take(k as int),
                    !hit ==> (i + p@.len() > v@.len() || v@.subrange(i as int, i + p@.len()) != p@),
                decreases p@.len() - k,
            {
                if hit && v[i + k] != p[k] {
                    proof {
                        assert(v@.subrange(i as int, i + p@.len())[k as int] != p@[k as int]);
                    }
                    hit = false;
                }
                k = k + 1;
                proof {
                    if hit {
                        assert(v@.subrange(i as int, i + k) =~= p@.take(k as int));
                    }
                }
            }
            proof {
                if hit {
                    assert(p@.take(p@.len() as int) =~= p@);
                }
                if i + p@.len() <= v@.len() {
                    assert(rest.take(p@.len() as int) =~= v@.subrange(i as int, i + p@.len()));
                }
            }
        }
        if hit {
            let mut j: usize = 0;
            let ghost before = out@;
            while j < q.len()
                invariant
                    0 <= j <= q@.len(),
                    out@ == before + q@.take(j as int),
                decreases q@.len() - j,
            {
                out.push(q[j]);
                j = j + 1;
                proof {
                    assert(out@ =~= before + q@.take(j as int));
                }
            }
            proof {
                assert(q@.take(q@.len() as int) =~= q@);
                assert(rest.skip(p@.len() as int) =~= v@.skip(i + p@.len()));
                assert(out@ + replace_spec(v@.skip(i + p@.len()), p@, q@) =~= before + replace_spec(rest, p@, q@));
            }
            i = i + p.len();
        } else {
            let ghost before = out@;
            out.push(v[i]);
            proof {
                assert(rest.drop_first() =~= v@.skip(i + 1));
                assert(rest[0] == v@[i as int]);
                assert(out@ + replace_spec(v@.skip(i + 1), p@, q@) =~= before + replace_spec(rest, p@, q@));
            }
            i = i + 1;
        }
    }
    proof {
        assert(out@ + replace_spec(v@.skip(i as int), p@, q@) =~= out@);
    }
    string_of_chars(&out)
}

/// The runtime values substituted into the scripted inputs.
#[derive(Clone, Debug, PartialEq, Eq)]
pub struct Env {
    pub src_dir: String,
    pub dl_dir: String,
}

/// `s` made safe inside a JSON string literal as far as the script needs:
/// backslashes doubled, then quotes escaped.
pub open spec fn json_escape_spec(s: Seq<char>) -> Seq<char> {
    replace_spec(replace_spec(s, seq!['\\'], seq!['\\', '\\']), seq!['"'], seq!['\\', '"'])
}

/// Escape backslashes, then quotes (see [`json_escape_spec`]).
pub fn json_escape(s: &str) -> (r: String)
    ensures
        r@ == json_escape_spec(s@),
{
    proof {
        reveal_strlit("\\");
        reveal_strlit("\\\\");
        reveal_strlit("\"");
        reveal_strlit("\\\"");
    }
    let a = replace_all(s, "\\", "\\\\");
    let r = replace_all(a.as_str(), "\"", "\\\"");
    proof {
        assert("\\"@ =~= seq!['\\']);
        assert("\\\\"@ =~= seq!['\\', '\\']);
        assert("\""@ =~= seq!['"']);
        assert("\\\""@ =~= seq!['\\', '"']);
    }
    r
}

/// A scripted input with `{SID}` replaced by the storage id, and `{SRC}` and
/// `{DL}` by the escaped source and download directories, in that order.
pub open spec fn fill_spec(template: Seq<char>, sid: u32, env: Env) -> Seq<char> {
    replace_spec(
        replace_spec(replace_spec(template, "{SID}"@, dec(sid as nat)), "{SRC}"@, json_escape_spec(env.src_dir@)),
        "{DL}"@,
        json_escape_spec(env.dl_dir@),
    )
}

/// Fill a scripted input's placeholders (see [`fill_spec`]).
pub fn fill(template: &str, sid: u32, env: &Env) -> (r: String)
    ensures
        r@ == fill_spec(template@, sid, *env),
{
    proof {
        reveal_strlit("{SID}");
        reveal_strlit("{SRC}");
        reveal_strlit("{DL}");
    }
    let mut sid_text = String::new();
    push_dec(&mut sid_text, sid as u64);
    let a = replace_all(template, "{SID}", sid_text.as_str());
    let src = json_escape(env.src_dir.as_str());
    let b = replace_all(a.as_str(), "{SRC}", src.as_str());
    let dl = json_escape(env.dl_dir.as_str());
    replace_all(b.as_str(), "{DL}", dl.as_str())
}

/// `s` with ASCII uppercase letters made lowercase.
pub open spec fn ascii_lower(s: Seq<char>) -> Seq<char> {
    s.map_values(|c: char| if 'A' <= c <= 'Z' { ((c as u32) + 32) as char } else { c })
}

/// The keys whose values vary from run to run.
pub open spec fn volatile_exact(k: Seq<char>) -> bool {
    k == "elapsedTime"@ || k == "speed"@ || k == "dateAdded"@ || k == "objectId"@ || k == "parentId"@
        || k == "FreeSpaceInBytes"@ || k == "FreeSpaceInImages"@
}

/// Whether a key is volatile: one of the listed keys, or any key ending in
/// `time` in any letter case.
pub open spec fn volatile_key(k: Seq<char>) -> bool {
    volatile_exact(k) || (k.len() >= 4 && ascii_lower(k).skip(k.len() - 4) == seq!['t', 'i', 'm', 'e'])
}

fn lower_char(c: char) -> (r: char)
    ensures
        r == (if 'A' <= c <= 'Z' { ((c as u32) + 32) as char } else { c }),
{
    if 'A' <= c && c <= 'Z' {
        match crate::strings::char_from_u32((c as u32) + 32) {
            Some(x) => x,
            None => {
                proof {
                    assert(vstd::utf8::is_scalar((c as u32 + 32) as u32));
                }
                c
            },
        }
    } else {
        c
    }
}

/// Whether a payload key is volatile (see [`volatile_key`]).
pub fn is_volatile_key(k: &str) -> (b: bool)
    ensures
        b == volatile_key(k@),
{
    if str_eq(k, "elapsedTime") || str_eq(k, "speed") || str_eq(k, "dateAdded") || str_eq(k, "objectId")
        || str_eq(k, "parentId") || str_eq(k, "FreeSpaceInBytes") || str_eq(k, "FreeSpaceInImages") {
        return true;
    }
    let v = str_chars(k);
    let n = v.len();
    if n < 4 {
        return false;
    }
    let a = lower_char(v[n - 4]);
    let b = lower_char(v[n - 3]);
    let c = lower_char(v[n - 2]);
    let d = lower_char(v[n - 1]);
    let r = a == 't' && b == 'i' && c == 'm' && d == 'e';
    proof {
        let t = ascii_lower(k@).skip(n - 4);
        assert(t.len() == 4);
        assert(t[0] == a && t[1] == b && t[2] == c && t[3] == d);
        if r {
            assert(t =~= seq!['t', 'i', 'm', 'e']);
        } else {
            if t == seq!['t', 'i', 'm', 'e'] {
                assert(t[0] == 't' && t[1] == 'i' && t[2] == 'm' && t[3] == 'e');
            }
        }
    }
    r
}

/// The oracle's help text.
pub const ORACLE_USAGE: &'static str = "keel-conformance \u{2014} differential oracle (reference kernel vs keel)

USAGE:
    keel-conformance --go <reference-dylib> --rust <libkeel.dylib> [--dump <dir>] [--keep]

Runs the golden session against the attached phone through each dylib in turn
(Go first, then Rust), diffs every callback payload, and exits 0 only on full
parity. Documented intentional fixes (e.g. the emoji filename) are
reported but do not fail the run.

    --dump <dir>   also write every captured payload to <dir>/{go,rust}-NN-*.json
    --keep         do not delete the temp scratch tree on exit
";

/// The oracle's command line: the two kernels to compare, where to dump
/// the payloads, and whether to keep the scratch tree.
#[derive(Clone, Debug, PartialEq, Eq)]
pub struct Args {
    pub go: String,
    pub rust: String,
    pub dump: Option<String>,
    pub keep: bool,
}

/// The flags seen so far.
pub struct ArgsSoFar {
    pub go: Option<Seq<char>>,
    pub rust: Option<Seq<char>>,
    pub dump: Option<Seq<char>>,
    pub keep: bool,
}

/// The scan of the remaining arguments from the flags seen so far: a flag
/// with a value takes the next argument (a later one replaces an earlier
/// one); help, a missing value or an unknown argument ends it with that
/// message.
pub open spec fn scan_oracle_args(acc: ArgsSoFar, rest: Seq<Seq<char>>) -> Result<ArgsSoFar, Seq<char>>
    decreases rest.len(),
{
    if rest.len() == 0 {
        Ok(acc)
    } else {
        let a = rest[0];
        let t = rest.drop_first();
        if a == "--go"@ {
            if t.len() == 0 {
                Err("--go needs a path"@)
            } else {
                scan_oracle_args(ArgsSoFar { go: Some(t[0]), ..acc }, t.drop_first())
            }
        } else if a == "--rust"@ {
            if t.len() == 0 {
                Err("--rust needs a path"@)
            } else {
                scan_oracle_args(ArgsSoFar { rust: Some(t[0]), ..acc }, t.drop_first())
            }
        } else if a == "--dump"@ {
            if t.len() == 0 {
                Err("--dump needs a dir"@)
            } else {
                scan_oracle_args(ArgsSoFar { dump: Some(t[0]), ..acc }, t.drop_first())
            }
        } else if a == "--keep"@ {
            scan_oracle_args(ArgsSoFar { keep: true, ..acc }, t)
        } else if a == "-h"@ || a == "--help"@ {
            Err("help"@)
        } else {
            Err("unknown arg: "@ + a)
        }
    }
}

/// What the oracle's arguments give: both kernels' paths, or the message
/// (`help` for the help flag).
pub open spec fn oracle_args_spec(args: Seq<Seq<char>>) -> Result<(Seq<char>, Seq<char>, Option<Seq<char>>, bool), Seq<char>> {
    match scan_oracle_args(ArgsSoFar { go: None, rust: None, dump: None, keep: false }, args) {
        Err(e) => Err(e),
        Ok(v) => match v.go {
            None => Err("missing --go <path to the reference kernel dylib>"@),
            Some(g) => match v.rust {
                None => Err("missing --rust <path to libkeel.dylib>"@),
                Some(r) => Ok((g, r, v.dump, v.keep)),
            },
        },
    }
}

/// The parse as texts.
pub open spec fn args_result_view(r: Result<Args, String>) -> Result<(Seq<char>, Seq<char>, Option<Seq<char>>, bool), Seq<char>> {
    match r {
        Ok(a) => Ok((a.go@, a.rust@, match a.dump {
            Some(d) => Some(d@),
            None => None,
        }, a.keep)),
        Err(e) => Err(e@),
    }
}

/// Parse the oracle's arguments, those after the program name (see
/// [`oracle_args_spec`]).
pub fn parse_args(args: &[String]) -> (r: Result<Args, String>)
    ensures
        args_result_view(r) == oracle_args_spec(strings_view(args@)),
{
    let mut go: Option<String> = None;
    let mut rust: Option<String> = None;
    let mut dump: Option<String> = None;
    let mut keep = false;
    let ghost all = strings_view(args@);
    let mut i: usize = 0;
    proof {
        assert(all.skip(0) =~= all);
    }
    while i < args.len()
        invariant
            i <= args@.len(),
            all == strings_view(args@),
            scan_oracle_args(ArgsSoFar { go: None, rust: None, dump: None, keep: false }, all) == scan_oracle_args(
                ArgsSoFar {
                    go: match go {
                        Some(g) => Some(g@),
                        None => None,
                    },
                    rust: match rust {
                        Some(g) => Some(g@),
                        None => None,
                    },
                    dump: match dump {
                        Some(g) => Some(g@),
                        None => None,
                    },
                    keep,
                },
                all.skip(i as int),
            ),
        decreases args@.len() - i,
    {
        let a = args[i].as_str();
        let ghost rest = all.skip(i as int);
        let ghost t = rest.drop_first();
        proof {
            assert(rest[0] == a@);
            assert(t =~= all.skip(i + 1));
            if i + 1 < args@.len() {
                assert(t[0] == args@[i + 1]@);
                assert(t.drop_first() =~= all.skip(i + 2));
            }
        }
        if str_eq(a, "--go") {
            if i + 1 >= args.len() {
                return Err("--go needs a path".to_owned());
            }
            go = Some(args[i + 1].clone());
            i = i + 2;
        } else if str_eq(a, "--rust") {
            if i + 1 >= args.len() {
                return Err("--rust needs a path".to_owned());
            }
            rust = Some(args[i + 1].clone());
            i = i + 2;
        } else if str_eq(a, "--dump") {
            if i + 1 >= args.len() {
                return Err("--dump needs a dir".to_owned());
            }
            dump = Some(args[i + 1].clone());
            i = i + 2;
        } else if str_eq(a, "--keep") {
            keep = true;
            i = i + 1;
        } else if str_eq(a, "-h") || str_eq(a, "--help") {
            return Err("help".to_owned());
        } else {
            let mut m = "unknown arg: ".to_owned();
            m.append(a);
            return Err(m);
        }
    }
    proof {
        assert(all.skip(i as int) =~= Seq::<Seq<char>>::empty());
    }
    match go {
        None => Err("missing --go <path to the reference kernel dylib>".to_owned()),
        Some(g) => match rust {
            None => Err("missing --rust <path to libkeel.dylib>".to_owned()),
            Some(r) => Ok(Args { go: g, rust: r, dump, keep }),
        },
    }
}

/// The input a step sends: its template filled (see [`fill_spec`]), or
/// nothing for the exports that take none.
pub open spec fn step_input_spec(op: Op, sid: u32, env: Env) -> Option<Seq<char>> {
    match op {
        Op::Initialize | Op::FetchDeviceInfo | Op::FetchStorages | Op::Dispose => None,
        Op::MakeDirectory(t) | Op::FileExists(t) | Op::DeleteFile(t) | Op::RenameFile(t) | Op::Walk(t)
        | Op::UploadFiles(t) | Op::DownloadFiles(t) => Some(fill_spec(t@, sid, env)),
    }
}

/// The input a step sends (see [`step_input_spec`]).
pub fn step_input(op: Op, sid: u32, env: &Env) -> (r: Option<String>)
    ensures
        match r {
            Some(s) => step_input_spec(op, sid, *env) == Some(s@),
            None => step_input_spec(op, sid, *env) is None,
        },
{
    match op {
        Op::Initialize | Op::FetchDeviceInfo | Op::FetchStorages | Op::Dispose => None,
        Op::MakeDirectory(t) | Op::FileExists(t) | Op::DeleteFile(t) | Op::RenameFile(t) | Op::Walk(t)
        | Op::UploadFiles(t) | Op::DownloadFiles(t) => Some(fill(t, sid, env)),
    }
}

/// The storage id later steps use: after FetchStorages, the one its
/// capture reports when it reports one; otherwise unchanged.
pub fn sid_after(op: Op, events: &[Event], sid: u32) -> (r: u32)
    ensures
        r == (if op is FetchStorages {
            match extract_sid_spec(events@) {
                Some(found) => found,
                None => sid,
            }
        } else {
            sid
        }),
{
    match op {
        Op::FetchStorages => match extract_sid(events) {
            Some(found) => found,
            None => sid,
        },
        _ => sid,
    }
}

/// A step's verdict. A step without differences passes, with a remark when
/// differences were expected there; a step with differences fails unless
/// they were expected.
pub open spec fn verdict_spec(clean: bool, expect_divergence: bool) -> (Seq<char>, bool) {
    if clean {
        if expect_divergence {
            ("PASS (expected divergence NOT observed \u{2014} verify fix)"@, false)
        } else {
            ("PASS"@, false)
        }
    } else if expect_divergence {
        ("EXPECTED DIVERGENCE (keel correct)"@, false)
    } else {
        ("DIVERGENCE"@, true)
    }
}

/// A step's verdict text and whether it is a failure (see [`verdict_spec`]).
pub fn step_verdict(clean: bool, expect_divergence: bool) -> (r: (&'static str, bool))
    ensures
        (r.0@, r.1) == verdict_spec(clean, expect_divergence),
{
    if clean {
        if expect_divergence {
            ("PASS (expected divergence NOT observed \u{2014} verify fix)", false)
        } else {
            ("PASS", false)
        }
    } else if expect_divergence {
        ("EXPECTED DIVERGENCE (keel correct)", false)
    } else {
        ("DIVERGENCE", true)
    }
}

/// The closing line: parity when no step failed, else the failure count.
pub open spec fn result_line_spec(failures: nat, total: nat) -> Seq<char> {
    if failures == 0 {
        "RESULT: PARITY ("@ + dec(total) + " steps; intentional divergences excluded)"@
    } else {
        "RESULT: "@ + dec(failures) + " DIVERGENCE(S) of "@ + dec(total) + " steps"@
    }
}

/// The closing line (see [`result_line_spec`]).
pub fn result_line(failures: usize, total: usize) -> (s: String)
    ensures
        s@ == result_line_spec(failures as nat, total as nat),
{
    let mut s = String::new();
    if failures == 0 {
        s.append("RESULT: PARITY (");
        push_dec(&mut s, total as u64);
        s.append(" steps; intentional divergences excluded)");
    } else {
        s.append("RESULT: ");
        push_dec(&mut s, failures as u64);
        s.append(" DIVERGENCE(S) of ");
        push_dec(&mut s, total as u64);
        s.append(" steps");
    }
    proof {
        assert(s@ =~= result_line_spec(failures as nat, total as nat));
    }
    s
}

} // verus!
