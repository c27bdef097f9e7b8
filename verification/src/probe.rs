//! The pieces of the development probe that decide things: its command
//! line, a small xorshift generator, and cancel injection for soak runs.
use vstd::prelude::*;
use vstd::string::StringExecFns;
use crate::strings::{contains_seq, str_chars, str_eq};

verus! {

/// One xorshift64 step.
pub open spec fn xorshift(x: u64) -> u64 {
    let a = x ^ (x << 13u64);
    let b = a ^ (a >> 7u64);
    b ^ (b << 17u64)
}

/// The xorshift64* output of a state.
pub open spec fn scramble(x: u64) -> u64 {
    ((x as nat * 0x2545_F491_4F6C_DD1D) % 0x1_0000_0000_0000_0000) as u64
}

/// A small xorshift64* generator; its state is never zero.
pub struct Rng(u64);

/// The current time in nanoseconds since the Unix epoch, as
/// `SystemTime::now().duration_since(UNIX_EPOCH)` gives it, truncated to 64
/// bits; `None` when the clock reads before the epoch. Nothing is promised
/// of the value.
#[verifier::external_body]
fn clock_nanos() -> Option<u64> {
    std::time::SystemTime::now().duration_since(std::time::UNIX_EPOCH).ok().map(|d| d.as_nanos() as u64)
}

impl Rng {
    /// The generator's state.
    pub closed spec fn state(&self) -> u64 {
        self.0
    }

    /// A generator seeded from `seed`, forced odd so the state is never zero.
    pub fn seeded(seed: u64) -> (r: Rng)
        ensures
            r.state() == seed | 1,
            r.state() % 2 == 1,
    {
        let s = seed | 1;
        assert(s % 2 == 1) by (bit_vector)
            requires
                s == seed | 1u64,
        ;
        Rng(s)
    }

    /// A generator seeded from the wall clock (a fixed constant if the clock
    /// reads before the epoch).
    pub fn new() -> (r: Rng)
        ensures
            r.state() % 2 == 1,
    {
        let seed = match clock_nanos() {
            Some(n) => n,
            None => 0x9E37_79B9_7F4A_7C15,
        };
        Rng::seeded(seed)
    }

    /// Advance the state one xorshift step and return its scrambled output.
    pub fn next_u64(&mut self) -> (r: u64)
        ensures
            final(self).state() == xorshift(old(self).state()),
            r == scramble(xorshift(old(self).state())),
    {
        let mut x = self.0;
        x = x ^ (x << 13u64);
        x = x ^ (x >> 7u64);
        x = x ^ (x << 17u64);
        self.0 = x;
        x.wrapping_mul(0x2545_F491_4F6C_DD1D)
    }

    /// A value in `0..n` from the next output; `0` without advancing when
    /// `n` is zero.
    pub fn below(&mut self, n: u64) -> (r: u64)
        ensures
            n == 0 ==> r == 0 && final(self).state() == old(self).state(),
            n > 0 ==> final(self).state() == xorshift(old(self).state()) && r == scramble(
                xorshift(old(self).state()),
            ) % n,
    {
        if n == 0 {
            0
        } else {
            self.next_u64() % n
        }
    }
}

impl Default for Rng {
    /// A clock-seeded generator.
    fn default() -> (r: Self)
        ensures
            r.state() % 2 == 1,
    {
        Rng::new()
    }
}

/// Fires once it has been polled a given number of times.
pub struct CancelInjector {
    count: u64,
    fire_at: Option<u64>,
}

impl CancelInjector {
    /// The number of polls so far.
    pub closed spec fn polls(&self) -> u64 {
        self.count
    }

    /// The poll count at which it fires, if armed.
    pub closed spec fn threshold(&self) -> Option<u64> {
        self.fire_at
    }

    /// An injector that fires on poll number `t` of `fire_at`, or never.
    pub fn new(fire_at: Option<u64>) -> (c: CancelInjector)
        ensures
            c.polls() == 0,
            c.threshold() == fire_at,
    {
        CancelInjector { count: 0, fire_at }
    }

    /// Count one poll; true once the count has reached the threshold. The
    /// count stops at `u64::MAX`.
    pub fn should(&mut self) -> (b: bool)
        ensures
            final(self).threshold() == old(self).threshold(),
            final(self).polls() == (if old(self).polls() < u64::MAX { old(self).polls() + 1 } else { u64::MAX as int }),
            b == (final(self).threshold() matches Some(t) && final(self).polls() >= t),
    {
        if self.count < u64::MAX {
            self.count = self.count + 1;
        }
        match self.fire_at {
            Some(t) => self.count >= t,
            None => false,
        }
    }

    /// Whether it will fire at some point.
    pub fn armed(&self) -> (b: bool)
        ensures
            b == (self.threshold() is Some),
    {
        self.fire_at.is_some()
    }
}

/// With even odds, a cancel after `lo` plus a draw below `span` units.
pub open spec fn maybe_cancel_spec(state: u64, lo: u64, span: u64) -> (Option<u64>, u64) {
    let s1 = xorshift(state);
    if scramble(s1) % 2 == 0 {
        let s2 = xorshift(s1);
        (Some((lo + scramble(s2) % span) as u64), s2)
    } else {
        (None, s1)
    }
}

/// An even chance to arm a cancel after 1..=40 progress ticks.
pub fn maybe_cancel_ticks(rng: &mut Rng) -> (r: Option<u64>)
    ensures
        (r, final(rng).state()) == maybe_cancel_spec(old(rng).state(), 1, 40),
{
    if rng.below(2) == 0 {
        Some(1 + rng.below(40))
    } else {
        None
    }
}

/// An even chance to arm a cancel after 20..=419 milliseconds.
pub fn maybe_cancel_ms(rng: &mut Rng) -> (r: Option<u64>)
    ensures
        (r, final(rng).state()) == maybe_cancel_spec(old(rng).state(), 20, 400),
{
    if rng.below(2) == 0 {
        Some(20 + rng.below(400))
    } else {
        None
    }
}

/// `Path::new(p).file_name()`: the last component of `p` when it is a
/// normal name, as a string. A component is a non-empty piece of the path
/// between separators, and `/` separates components on every platform, so
/// the name is a non-empty, slash-free piece of `p` (as `p` is UTF-8, the
/// lossy conversion keeps it whole). Which piece it is depends on the
/// platform's path syntax and is not stated.
#[verifier::external_body]
fn path_file_name(p: &str) -> (r: Option<String>)
    ensures
        r matches Some(n) ==> is_path_piece(p@, n@),
{
    std::path::Path::new(p).file_name().map(|s| s.to_string_lossy().into_owned())
}

/// `n` is a non-empty piece of `p` without a slash.
pub open spec fn is_path_piece(p: Seq<char>, n: Seq<char>) -> bool {
    n.len() > 0 && contains_seq(p, n) && !n.contains('/')
}

/// The base name a path's last component gives, else the path itself.
pub fn base_name_from(p: &str, file_name: Option<String>) -> (s: String)
    ensures
        s@ == match file_name {
            Some(n) => n@,
            None => p@,
        },
{
    match file_name {
        Some(n) => n,
        None => p.to_owned(),
    }
}

/// The base name of a path: its last component, else the path itself.
pub fn base_name(p: &str) -> (s: String)
    ensures
        s@ == p@ || is_path_piece(p@, s@),
{
    base_name_from(p, path_file_name(p))
}

/// The value of digit `c` in base `radix` (10 or 16), if it is one.
pub open spec fn digit_value(c: char, radix: nat) -> Option<nat> {
    if '0' <= c <= '9' && (c as nat) - ('0' as nat) < radix {
        Some(((c as nat) - ('0' as nat)) as nat)
    } else if radix == 16 && 'a' <= c <= 'f' {
        Some(((c as nat) - ('a' as nat) + 10) as nat)
    } else if radix == 16 && 'A' <= c <= 'F' {
        Some(((c as nat) - ('A' as nat) + 10) as nat)
    } else {
        None
    }
}

/// The value of the digits `s` in base `radix`, if all are digits.
pub open spec fn digits_in_radix(s: Seq<char>, radix: nat) -> Option<nat>
    decreases s.len(),
{
    if s.len() == 0 {
        Some(0)
    } else {
        match (digits_in_radix(s.drop_last(), radix), digit_value(s.last(), radix)) {
            (Some(v), Some(d)) => Some(v * radix + d),
            _ => None,
        }
    }
}

/// An unsigned 32-bit number in base `radix`: an optional `+`, then at
/// least one digit, with a value that fits.
pub open spec fn parse_unsigned(s: Seq<char>, radix: nat) -> Option<u32> {
    let body = if s.len() > 0 && s[0] == '+' { s.drop_first() } else { s };
    if body.len() == 0 {
        None
    } else {
        unsigned_of_digits(body, radix)
    }
}

/// The value of a non-empty run of digits, if all are digits and it fits.
pub open spec fn unsigned_of_digits(body: Seq<char>, radix: nat) -> Option<u32> {
    match digits_in_radix(body, radix) {
        Some(v) => if v <= u32::MAX { Some(v as u32) } else { None },
        None => None,
    }
}

/// A storage id: `0x`/`0X` and hex digits, else decimal.
pub open spec fn parse_u32_spec(s: Seq<char>) -> Option<u32> {
    if s.len() >= 2 && s[0] == '0' && (s[1] == 'x' || s[1] == 'X') {
        parse_unsigned(s.skip(2), 16)
    } else {
        parse_unsigned(s, 10)
    }
}

fn digit_of(c: char, radix: u32) -> (r: Option<u32>)
    requires
        radix == 10 || radix == 16,
    ensures
        match digit_value(c, radix as nat) {
            Some(d) => r == Some(d as u32),
            None => r is None,
        },
{
    if '0' <= c && c <= '9' && (c as u32) - ('0' as u32) < radix {
        Some((c as u32) - ('0' as u32))
    } else if radix == 16 && 'a' <= c && c <= 'f' {
        Some((c as u32) - ('a' as u32) + 10)
    } else if radix == 16 && 'A' <= c && c <= 'F' {
        Some((c as u32) - ('A' as u32) + 10)
    } else {
        None
    }
}

proof fn lemma_digits_monotone(s: Seq<char>, radix: nat, k: int)
    requires
        0 <= k <= s.len(),
        radix >= 1,
        digits_in_radix(s, radix) is Some,
    ensures
        digits_in_radix(s.take(k), radix) is Some,
        digits_in_radix(s.take(k), radix)->0 <= digits_in_radix(s, radix)->0,
    decreases s.len() - k,
{
    if k < s.len() {
        assert(s.drop_last().take(k) =~= s.take(k));
        let v = digits_in_radix(s.drop_last(), radix)->0;
        assert(v <= v * radix + digit_value(s.last(), radix)->0) by (nonlinear_arith)
            requires
                radix >= 1,
        ;
        lemma_digits_monotone(s.drop_last(), radix, k);
    } else {
        assert(s.take(k) =~= s);
    }
}

pub(crate) fn parse_unsigned_exec(v: &Vec<char>, start: usize, radix: u32) -> (r: Option<u32>)
    requires
        start <= v@.len(),
        radix == 10 || radix == 16,
    ensures
        r == parse_unsigned(v@.skip(start as int), radix as nat),
{
    let ghost s = v@.skip(start as int);
    let mut i = start;
    if i < v.len() && v[i] == '+' {
        i = i + 1;
    }
    let ghost body = v@.skip(i as int);
    proof {
        if start < v@.len() && v@[start as int] == '+' {
            assert(body =~= s.drop_first());
        } else {
            assert(body =~= s);
        }
    }
    if i == v.len() {
        return None;
    }
    let first = i;
    let mut acc: u64 = 0;
    while i < v.len()
        invariant
            first <= i <= v@.len(),
            first < v@.len(),
            radix == 10 || radix == 16,
            body == v@.skip(first as int),
            parse_unsigned(v@.skip(start as int), radix as nat) == unsigned_of_digits(body, radix as nat),
            digits_in_radix(body.take(i - first), radix as nat) == Some(acc as nat),
            acc <= u32::MAX,
        decreases v@.len() - i,
    {
        let d = match digit_of(v[i], radix) {
            Some(d) => d,
            None => {
                proof {
                    assert(body.take(i - first + 1).drop_last() =~= body.take(i - first));
                    assert(body.take(i - first + 1).last() == v@[i as int]);
                    assert(digits_in_radix(body.take(i - first + 1), radix as nat) is None);
                    if digits_in_radix(body, radix as nat) is Some {
                        lemma_digits_monotone(body, radix as nat, i - first + 1);
                    }
                }
                return None;
            },
        };
        assert(acc * (radix as u64) <= 0xFFFF_FFFFu64 * 16) by (nonlinear_arith)
            requires
                acc <= 0xFFFF_FFFFu64,
                radix <= 16,
        ;
        let next = acc * (radix as u64) + (d as u64);
        proof {
            assert(body.take(i - first + 1).drop_last() =~= body.take(i - first));
            assert(body.take(i - first + 1).last() == v@[i as int]);
        }
        if next > 0xFFFF_FFFF {
            proof {
                if digits_in_radix(body, radix as nat) is Some {
                    lemma_digits_monotone(body, radix as nat, i - first + 1);
                }
            }
            return None;
        }
        acc = next;
        i = i + 1;
    }
    proof {
        assert(body.take(i - first) =~= body);
    }
    Some(acc as u32)
}

/// Parse a storage id (see [`parse_u32_spec`]).
pub fn parse_u32(s: &str) -> (r: Option<u32>)
    ensures
        r == parse_u32_spec(s@),
{
    let v = str_chars(s);
    if v.len() >= 2 && v[0] == '0' && (v[1] == 'x' || v[1] == 'X') {
        parse_unsigned_exec(&v, 2, 16)
    } else {
        proof {
            assert(v@.skip(0) =~= v@);
        }
        parse_unsigned_exec(&v, 0, 10)
    }
}

/// Options shared by both probe modes.
#[derive(Clone, Debug, PartialEq, Eq)]
pub struct Options {
    /// Drive the C ABI instead of the filesystem layer directly.
    pub via_ffi: bool,
    /// Where to write each callback payload, in ABI mode.
    pub dump_dir: Option<String>,
    /// An explicit path of the kernel library, in ABI mode.
    pub lib: Option<String>,
    /// Look for the kernel library among release builds.
    pub release: bool,
    /// Use this storage id instead of the first one found.
    pub storage: Option<u32>,
    /// Turn on the filesystem layer's debug mode.
    pub debug_mode: bool,
    /// Walk recursively.
    pub recursive: bool,
    /// Soak loop count.
    pub iterations: u32,
}

/// A probe subcommand and its operands.
#[derive(Clone, Debug, PartialEq, Eq)]
pub enum Command {
    Info,
    Storages,
    Walk { path: String },
    Up { local: String, remote: String },
    Down { remote: String, local: String },
    Rm { path: String },
    Mv { path: String, new_name: String },
    Mkdir { path: String },
    Thumb { path: String },
    Exists { paths: Vec<String> },
    Golden,
    Soak { tree: String },
}

/// A subcommand with its operands as sequences.
pub enum CommandView {
    Info,
    Storages,
    Walk { path: Seq<char> },
    Up { local: Seq<char>, remote: Seq<char> },
    Down { remote: Seq<char>, local: Seq<char> },
    Rm { path: Seq<char> },
    Mv { path: Seq<char>, new_name: Seq<char> },
    Mkdir { path: Seq<char> },
    Thumb { path: Seq<char> },
    Exists { paths: Seq<Seq<char>> },
    Golden,
    Soak { tree: Seq<char> },
}

impl View for Command {
    type V = CommandView;

    open spec fn view(&self) -> CommandView {
        match self {
            Command::Info => CommandView::Info,
            Command::Storages => CommandView::Storages,
            Command::Walk { path } => CommandView::Walk { path: path@ },
            Command::Up { local, remote } => CommandView::Up { local: local@, remote: remote@ },
            Command::Down { remote, local } => CommandView::Down { remote: remote@, local: local@ },
            Command::Rm { path } => CommandView::Rm { path: path@ },
            Command::Mv { path, new_name } => CommandView::Mv { path: path@, new_name: new_name@ },
            Command::Mkdir { path } => CommandView::Mkdir { path: path@ },
            Command::Thumb { path } => CommandView::Thumb { path: path@ },
            Command::Exists { paths } => CommandView::Exists { paths: strings_view(paths@) },
            Command::Golden => CommandView::Golden,
            Command::Soak { tree } => CommandView::Soak { tree: tree@ },
        }
    }
}

/// The character sequences of a run of strings.
pub open spec fn strings_view(v: Seq<String>) -> Seq<Seq<char>> {
    v.map_values(|s: String| s@)
}

/// The subcommand the positional arguments name, or the usage error.
pub open spec fn command_spec(pos: Seq<Seq<char>>) -> Result<CommandView, Seq<char>> {
    let name = if pos.len() > 0 { pos[0] } else { Seq::empty() };
    let rest = if pos.len() > 0 { pos.drop_first() } else { pos };
    if name.len() == 0 && pos.len() == 0 {
        Err("no subcommand given"@)
    } else if name == "info"@ {
        Ok(CommandView::Info)
    } else if name == "storages"@ {
        Ok(CommandView::Storages)
    } else if name == "walk"@ {
        if rest.len() >= 1 { Ok(CommandView::Walk { path: rest[0] }) } else { Err("walk needs a <path>"@) }
    } else if name == "up"@ {
        if rest.len() >= 2 {
            Ok(CommandView::Up { local: rest[0], remote: rest[1] })
        } else {
            Err("up needs <local> <remote>"@)
        }
    } else if name == "down"@ {
        if rest.len() >= 2 {
            Ok(CommandView::Down { remote: rest[0], local: rest[1] })
        } else {
            Err("down needs <remote> <local>"@)
        }
    } else if name == "rm"@ {
        if rest.len() >= 1 { Ok(CommandView::Rm { path: rest[0] }) } else { Err("rm needs a <path>"@) }
    } else if name == "mv"@ {
        if rest.len() >= 2 {
            Ok(CommandView::Mv { path: rest[0], new_name: rest[1] })
        } else {
            Err("mv needs <path> <newname>"@)
        }
    } else if name == "mkdir"@ {
        if rest.len() >= 1 { Ok(CommandView::Mkdir { path: rest[0] }) } else { Err("mkdir needs a <path>"@) }
    } else if name == "thumb"@ {
        if rest.len() >= 1 { Ok(CommandView::Thumb { path: rest[0] }) } else { Err("thumb needs a <path>"@) }
    } else if name == "exists"@ {
        if rest.len() >= 1 {
            Ok(CommandView::Exists { paths: rest })
        } else {
            Err("exists needs at least one <path>"@)
        }
    } else if name == "golden"@ {
        Ok(CommandView::Golden)
    } else if name == "soak"@ {
        if rest.len() >= 1 { Ok(CommandView::Soak { tree: rest[0] }) } else { Err("soak needs a <local-tree>"@) }
    } else if name.len() == 0 {
        Err("no subcommand given"@)
    } else {
        Err("unknown subcommand "@ + name)
    }
}

fn rest_strings(pos: &[String]) -> (r: Vec<String>)
    requires
        pos@.len() >= 1,
    ensures
        strings_view(r@) == strings_view(pos@).drop_first(),
{
    let mut r: Vec<String> = Vec::new();
    let mut i: usize = 1;
    while i < pos.len()
        invariant
            1 <= i <= pos@.len(),
            strings_view(r@) == strings_view(pos@).subrange(1, i as int),
        decreases pos@.len() - i,
    {
        let ghost old_r = r@;
        let x = pos[i].clone();
        r.push(x);
        proof {
            assert(x == pos@[i as int]);
            assert(r@ == old_r.push(x));
            assert(strings_view(old_r.push(x)) =~= strings_view(old_r).push(x@));
            assert(strings_view(pos@).subrange(1, i + 1) =~= strings_view(pos@).subrange(1, i as int).push(
                pos@[i as int]@,
            ));
        }
        i = i + 1;
    }
    proof {
        assert(strings_view(pos@).subrange(1, pos@.len() as int) =~= strings_view(pos@).drop_first());
    }
    r
}

/// Parse the positional arguments into a subcommand (see [`command_spec`]).
pub fn parse_command(pos: &[String]) -> (r: Result<Command, String>)
    ensures
        match (r, command_spec(strings_view(pos@))) {
            (Ok(c), Ok(v)) => c@ == v,
            (Err(m), Err(w)) => m@ == w,
            _ => false,
        },
{
    if pos.len() == 0 {
        return Err("no subcommand given".to_owned());
    }
    let name = pos[0].as_str();
    let n = pos.len() - 1;
    proof {
        assert(strings_view(pos@)[0] == pos@[0]@);
        assert(strings_view(pos@).drop_first().len() == n);
        if n >= 1 {
            assert(strings_view(pos@).drop_first()[0] == pos@[1]@);
        }
        if n >= 2 {
            assert(strings_view(pos@).drop_first()[1] == pos@[2]@);
        }
    }
    if str_eq(name, "info") {
        Ok(Command::Info)
    } else if str_eq(name, "storages") {
        Ok(Command::Storages)
    } else if str_eq(name, "walk") {
        if n >= 1 { Ok(Command::Walk { path: pos[1].clone() }) } else { Err("walk needs a <path>".to_owned()) }
    } else if str_eq(name, "up") {
        if n >= 2 {
            Ok(Command::Up { local: pos[1].clone(), remote: pos[2].clone() })
        } else {
            Err("up needs <local> <remote>".to_owned())
        }
    } else if str_eq(name, "down") {
        if n >= 2 {
            Ok(Command::Down { remote: pos[1].clone(), local: pos[2].clone() })
        } else {
            Err("down needs <remote> <local>".to_owned())
        }
    } else if str_eq(name, "rm") {
        if n >= 1 { Ok(Command::Rm { path: pos[1].clone() }) } else { Err("rm needs a <path>".to_owned()) }
    } else if str_eq(name, "mv") {
        if n >= 2 {
            Ok(Command::Mv { path: pos[1].clone(), new_name: pos[2].clone() })
        } else {
            Err("mv needs <path> <newname>".to_owned())
        }
    } else if str_eq(name, "mkdir") {
        if n >= 1 { Ok(Command::Mkdir { path: pos[1].clone() }) } else { Err("mkdir needs a <path>".to_owned()) }
    } else if str_eq(name, "thumb") {
        if n >= 1 { Ok(Command::Thumb { path: pos[1].clone() }) } else { Err("thumb needs a <path>".to_owned()) }
    } else if str_eq(name, "exists") {
        if n >= 1 {
            Ok(Command::Exists { paths: rest_strings(pos) })
        } else {
            Err("exists needs at least one <path>".to_owned())
        }
    } else if str_eq(name, "golden") {
        Ok(Command::Golden)
    } else if str_eq(name, "soak") {
        if n >= 1 { Ok(Command::Soak { tree: pos[1].clone() }) } else { Err("soak needs a <local-tree>".to_owned()) }
    } else if name.is_empty() {
        Err("no subcommand given".to_owned())
    } else {
        let mut m = "unknown subcommand ".to_owned();
        m.append(name);
        Err(m)
    }
}

} // verus!
