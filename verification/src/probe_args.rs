//! The development probe's command line: one flat pass over the arguments,
//! where flags may appear anywhere and everything else is positional.
use vstd::prelude::*;
use vstd::string::StringExecFns;
use crate::probe::{parse_unsigned, parse_unsigned_exec, parse_u32, parse_u32_spec, strings_view, Options};
use crate::strings::{str_chars, str_eq};

verus! {

/// The probe's help text.
pub const USAGE: &'static str = "keel-probe \u{2014} drive the keel MTP kernel (direct or via the C ABI)

USAGE:
    keel-probe [GLOBAL FLAGS] <subcommand> [ARGS]

GLOBAL FLAGS:
    --via-ffi              dlopen libkeel.dylib and drive the C ABI
    --dump-dir <dir>       (ffi) write each callback payload to <dir>/%04d.json
    --lib <path>           (ffi) explicit path to libkeel.dylib
    --release              (ffi) default lib dir = target/release (else debug)
    --storage <sid>        use storage id <sid> (default: first discovered)
    --debug                keel-vfs Init.debug_mode = true (direct mode)
    -r, --recursive        recurse (walk)
    -n, --iterations <N>   soak loop count (default 10)
    -h, --help             this help

SUBCOMMANDS:
    info                       device + USB info
    storages                   list storages
    walk <path> [--recursive]  list a directory tree
    up <local> <remote>        upload a local file/dir to the device
    down <remote> <local>      download a device file/dir to local disk
    rm <path>                  delete a device object (device-side recursive)
    mv <path> <newname>        rename a device object
    mkdir <path>               mkdir -p on the device
    exists <path...>           existence check for one or more device paths
    golden                     the scripted golden session
    soak <local-tree>          upload+download loop w/ random cancel injection
";

/// The help text.
pub fn usage() -> (s: &'static str)
    ensures
        s@ == USAGE@,
{
    USAGE
}

/// [`Options`] with its paths as sequences.
pub struct OptionsView {
    pub via_ffi: bool,
    pub dump_dir: Option<Seq<char>>,
    pub lib: Option<Seq<char>>,
    pub release: bool,
    pub storage: Option<u32>,
    pub debug_mode: bool,
    pub recursive: bool,
    pub iterations: u32,
}

/// The sequence of an optional string.
pub open spec fn opt_view(s: Option<String>) -> Option<Seq<char>> {
    match s {
        Some(x) => Some(x@),
        None => None,
    }
}

impl View for Options {
    type V = OptionsView;

    open spec fn view(&self) -> OptionsView {
        OptionsView {
            via_ffi: self.via_ffi,
            dump_dir: opt_view(self.dump_dir),
            lib: opt_view(self.lib),
            release: self.release,
            storage: self.storage,
            debug_mode: self.debug_mode,
            recursive: self.recursive,
            iterations: self.iterations,
        }
    }
}

/// The options before any flag: everything off, ten soak iterations.
pub open spec fn default_options() -> OptionsView {
    OptionsView {
        via_ffi: false,
        dump_dir: None,
        lib: None,
        release: false,
        storage: None,
        debug_mode: false,
        recursive: false,
        iterations: 10,
    }
}

/// What the command line asks for.
#[derive(Clone, Debug, PartialEq, Eq)]
pub enum ParsedArgs {
    /// Run with these options and positional arguments.
    Run { options: Options, positional: Vec<String> },
    /// Print the help text.
    Help,
    /// A usage error, with its message.
    Error(String),
}

/// [`ParsedArgs`] with its strings as sequences.
pub enum ParsedArgsView {
    Run(OptionsView, Seq<Seq<char>>),
    Help,
    Error(Seq<char>),
}

impl View for ParsedArgs {
    type V = ParsedArgsView;

    open spec fn view(&self) -> ParsedArgsView {
        match self {
            ParsedArgs::Run { options, positional } => ParsedArgsView::Run(options@, strings_view(positional@)),
            ParsedArgs::Help => ParsedArgsView::Help,
            ParsedArgs::Error(m) => ParsedArgsView::Error(m@),
        }
    }
}

/// Whether an argument looks like a long flag.
pub open spec fn is_long_flag(a: Seq<char>) -> bool {
    a.len() >= 2 && a[0] == '-' && a[1] == '-'
}

/// The rest of the scan, from options `o` and positionals `pos` so far,
/// over the arguments `rest`: the first help flag or usage error ends it.
pub open spec fn scan_args(o: OptionsView, pos: Seq<Seq<char>>, rest: Seq<Seq<char>>) -> ParsedArgsView
    decreases rest.len(),
{
    if rest.len() == 0 {
        ParsedArgsView::Run(o, pos)
    } else {
        let a = rest[0];
        let t = rest.drop_first();
        if a == "--via-ffi"@ {
            scan_args(OptionsView { via_ffi: true, ..o }, pos, t)
        } else if a == "--release"@ {
            scan_args(OptionsView { release: true, ..o }, pos, t)
        } else if a == "--debug"@ {
            scan_args(OptionsView { debug_mode: true, ..o }, pos, t)
        } else if a == "-r"@ || a == "--recursive"@ {
            scan_args(OptionsView { recursive: true, ..o }, pos, t)
        } else if a == "-h"@ || a == "--help"@ {
            ParsedArgsView::Help
        } else if a == "--dump-dir"@ {
            if t.len() == 0 {
                ParsedArgsView::Error("--dump-dir needs a value"@)
            } else {
                scan_args(OptionsView { dump_dir: Some(t[0]), ..o }, pos, t.drop_first())
            }
        } else if a == "--lib"@ {
            if t.len() == 0 {
                ParsedArgsView::Error("--lib needs a value"@)
            } else {
                scan_args(OptionsView { lib: Some(t[0]), ..o }, pos, t.drop_first())
            }
        } else if a == "--storage"@ || a == "--sid"@ {
            if t.len() == 0 {
                ParsedArgsView::Error("--storage needs a value"@)
            } else {
                match parse_u32_spec(t[0]) {
                    Some(v) => scan_args(OptionsView { storage: Some(v), ..o }, pos, t.drop_first()),
                    None => ParsedArgsView::Error("--storage must be a number"@),
                }
            }
        } else if a == "-n"@ || a == "--iterations"@ {
            if t.len() == 0 {
                ParsedArgsView::Error("--iterations needs a value"@)
            } else {
                match parse_unsigned(t[0], 10) {
                    Some(v) => scan_args(OptionsView { iterations: v, ..o }, pos, t.drop_first()),
                    None => ParsedArgsView::Error("--iterations must be a number"@),
                }
            }
        } else if is_long_flag(a) {
            ParsedArgsView::Error("unknown flag "@ + a)
        } else {
            scan_args(o, pos.push(a), t)
        }
    }
}

/// Decimal digits of `s` as a `u32`, with an optional `+` (what
/// `str::parse::<u32>` accepts).
fn parse_decimal_u32(s: &str) -> (r: Option<u32>)
    ensures
        r == parse_unsigned(s@, 10),
{
    let v = str_chars(s);
    proof {
        assert(v@.skip(0) =~= v@);
    }
    parse_unsigned_exec(&v, 0, 10)
}

fn is_long_flag_exec(a: &str) -> (b: bool)
    ensures
        b == is_long_flag(a@),
{
    let v = str_chars(a);
    v.len() >= 2 && v[0] == '-' && v[1] == '-'
}

/// Parse the probe's arguments (see [`scan_args`], from
/// [`default_options`] and no positionals).
pub fn parse_args(args: &[String]) -> (r: ParsedArgs)
    ensures
        r@ == scan_args(default_options(), Seq::empty(), strings_view(args@)),
{
    let mut o = Options {
        via_ffi: false,
        dump_dir: None,
        lib: None,
        release: false,
        storage: None,
        debug_mode: false,
        recursive: false,
        iterations: 10,
    };
    let mut pos: Vec<String> = Vec::new();
    let ghost all = strings_view(args@);
    let mut i: usize = 0;
    proof {
        assert(all.skip(0) =~= all);
        assert(strings_view(pos@) =~= Seq::<Seq<char>>::empty());
    }
    while i < args.len()
        invariant
            i <= args@.len(),
            all == strings_view(args@),
            scan_args(default_options(), Seq::empty(), all) == scan_args(o@, strings_view(pos@), all.skip(i as int)),
        decreases args@.len() - i,
    {
        let a = args[i].as_str();
        let ghost rest = all.skip(i as int);
        let ghost t = rest.drop_first();
        proof {
            assert(rest[0] == a@);
            assert(t =~= all.skip(i + 1));
        }
        if str_eq(a, "--via-ffi") {
            o.via_ffi = true;
            i = i + 1;
        } else if str_eq(a, "--release") {
            o.release = true;
            i = i + 1;
        } else if str_eq(a, "--debug") {
            o.debug_mode = true;
            i = i + 1;
        } else if str_eq(a, "-r") || str_eq(a, "--recursive") {
            o.recursive = true;
            i = i + 1;
        } else if str_eq(a, "-h") || str_eq(a, "--help") {
            return ParsedArgs::Help;
        } else if str_eq(a, "--dump-dir") {
            if i + 1 >= args.len() {
                return ParsedArgs::Error("--dump-dir needs a value".to_owned());
            }
            proof {
                assert(t[0] == args@[i + 1]@);
                assert(t.drop_first() =~= all.skip(i + 2));
            }
            o.dump_dir = Some(args[i + 1].clone());
            i = i + 2;
        } else if str_eq(a, "--lib") {
            if i + 1 >= args.len() {
                return ParsedArgs::Error("--lib needs a value".to_owned());
            }
            proof {
                assert(t[0] == args@[i + 1]@);
                assert(t.drop_first() =~= all.skip(i + 2));
            }
            o.lib = Some(args[i + 1].clone());
            i = i + 2;
        } else if str_eq(a, "--storage") || str_eq(a, "--sid") {
            if i + 1 >= args.len() {
                return ParsedArgs::Error("--storage needs a value".to_owned());
            }
            proof {
                assert(t[0] == args@[i + 1]@);
                assert(t.drop_first() =~= all.skip(i + 2));
            }
            match parse_u32(args[i + 1].as_str()) {
                Some(v) => {
                    o.storage = Some(v);
                },
                None => {
                    return ParsedArgs::Error("--storage must be a number".to_owned());
                },
            }
            i = i + 2;
        } else if str_eq(a, "-n") || str_eq(a, "--iterations") {
            if i + 1 >= args.len() {
                return ParsedArgs::Error("--iterations needs a value".to_owned());
            }
            proof {
                assert(t[0] == args@[i + 1]@);
                assert(t.drop_first() =~= all.skip(i + 2));
            }
            match parse_decimal_u32(args[i + 1].as_str()) {
                Some(v) => {
                    o.iterations = v;
                },
                None => {
                    return ParsedArgs::Error("--iterations must be a number".to_owned());
                },
            }
            i = i + 2;
        } else if is_long_flag_exec(a) {
            let mut m = "unknown flag ".to_owned();
            m.append(a);
            return ParsedArgs::Error(m);
        } else {
            let ghost pv = strings_view(pos@);
            pos.push(args[i].clone());
            proof {
                assert(strings_view(pos@) =~= pv.push(a@));
            }
            i = i + 1;
        }
    }
    proof {
        assert(all.skip(i as int) =~= Seq::<Seq<char>>::empty());
    }
    ParsedArgs::Run { options: o, positional: pos }
}

} // verus!
