//! Field-by-field comparison of two JSON payloads, one from each kernel: the
//! structural diff, the key schema of a payload, path lookup, and the
//! comparison of callback streams.
use vstd::prelude::*;

use crate::decimal::{dec, push_dec};
use crate::json_tree::{number_text, push_render, render, JsonNumber, JsonValue};
use crate::strings::{str_chars, str_eq, string_of_chars};
use crate::text_order::{lemma_strictly_sorted_unique, sort_dedup, strictly_sorted};

verus! {

/// One difference between the two sides: where it is, what each side holds
/// there, and what kind of difference it is.
#[derive(Debug)]
pub struct FieldDiff {
    pub path: String,
    pub go: String,
    pub rust: String,
    pub note: &'static str,
}

/// A difference as texts.
pub struct DiffView {
    pub path: Seq<char>,
    pub go: Seq<char>,
    pub rust: Seq<char>,
    pub note: Seq<char>,
}

impl View for FieldDiff {
    type V = DiffView;

    open spec fn view(&self) -> DiffView {
        DiffView { path: self.path@, go: self.go@, rust: self.rust@, note: self.note@ }
    }
}

/// The differences of a list, as texts.
pub open spec fn views(s: Seq<FieldDiff>) -> Seq<DiffView> {
    s.map_values(|d: FieldDiff| d@)
}

/// The pairs of number texts, the first from the go side and the second from
/// the rust side, whose values the caller judged equal within its tolerance.
/// Numbers that are not both integers are compared through this list: that
/// judgement is floating-point work, done outside.
pub struct CloseNumbers {
    pub pairs: Vec<(String, String)>,
}

impl CloseNumbers {
    /// Whether `(a, b)` is one of the pairs.
    pub open spec fn holds(&self, a: Seq<char>, b: Seq<char>) -> bool {
        exists|i: int| 0 <= i < self.pairs@.len() && #[trigger] self.pairs@[i].0@ == a && self.pairs@[i].1@ == b
    }

    /// Whether `(a, b)` is one of the pairs (see [`CloseNumbers::holds`]).
    pub fn contains(&self, a: &str, b: &str) -> (r: bool)
        ensures
            r == self.holds(a@, b@),
    {
        let mut i: usize = 0;
        while i < self.pairs.len()
            invariant
                0 <= i <= self.pairs@.len(),
                forall|j: int| 0 <= j < i ==> !(#[trigger] self.pairs@[j].0@ == a@ && self.pairs@[j].1@ == b@),
            decreases self.pairs@.len() - i,
        {
            if str_eq(self.pairs[i].0.as_str(), a) && str_eq(self.pairs[i].1.as_str(), b) {
                return true;
            }
            i = i + 1;
        }
        false
    }
}

/// The number as a signed 64-bit integer, where it is one.
pub open spec fn as_i64(n: JsonNumber) -> Option<int> {
    match n {
        JsonNumber::PosInt(u) => if u <= i64::MAX {
            Some(u as int)
        } else {
            None
        },
        JsonNumber::NegInt(i) => Some(i as int),
        JsonNumber::Float(_) => None,
    }
}

/// The number as an unsigned 64-bit integer, where it is one.
pub open spec fn as_u64(n: JsonNumber) -> Option<int> {
    match n {
        JsonNumber::PosInt(u) => Some(u as int),
        _ => None,
    }
}

/// Two numbers are equal: exactly, when both are integers of one of the two
/// 64-bit kinds; otherwise when the caller judged their texts close.
pub open spec fn numbers_equal(a: JsonNumber, b: JsonNumber, close: CloseNumbers) -> bool {
    if as_i64(a) is Some && as_i64(b) is Some {
        as_i64(a) == as_i64(b)
    } else if as_u64(a) is Some && as_u64(b) is Some {
        as_u64(a) == as_u64(b)
    } else {
        close.holds(number_text(a), number_text(b))
    }
}

/// Whether two numbers are equal (see [`numbers_equal`]).
pub fn numbers_match(a: &JsonNumber, b: &JsonNumber, close: &CloseNumbers) -> (r: bool)
    ensures
        r == numbers_equal(*a, *b, *close),
{
    match (a, b) {
        (JsonNumber::NegInt(x), JsonNumber::NegInt(y)) => *x == *y,
        (JsonNumber::NegInt(x), JsonNumber::PosInt(y)) if *y <= i64::MAX as u64 => *x >= 0 && *x as u64 == *y,
        (JsonNumber::PosInt(x), JsonNumber::NegInt(y)) if *x <= i64::MAX as u64 => *y >= 0 && *y as u64 == *x,
        (JsonNumber::PosInt(x), JsonNumber::PosInt(y)) => *x == *y,
        _ => {
            let mut ta = String::new();
            crate::json_tree::push_number(&mut ta, a);
            let mut tb = String::new();
            crate::json_tree::push_number(&mut tb, b);
            proof {
                assert(ta@ =~= number_text(*a));
                assert(tb@ =~= number_text(*b));
            }
            close.contains(ta.as_str(), tb.as_str())
        },
    }
}

/// The number of bytes of `c` in UTF-8.
pub open spec fn char_width(c: char) -> int {
    if (c as int) < 0x80 {
        1
    } else if (c as int) < 0x800 {
        2
    } else if (c as int) < 0x10000 {
        3
    } else {
        4
    }
}

/// The number of bytes of `s` in UTF-8.
pub open spec fn utf8_len(s: Seq<char>) -> int
    decreases s.len(),
{
    if s.len() == 0 {
        0
    } else {
        char_width(s[0]) + utf8_len(s.drop_first())
    }
}

/// The longest prefix of `s` that takes at most `budget` bytes in UTF-8.
pub open spec fn clip(s: Seq<char>, budget: int) -> Seq<char>
    decreases s.len(),
{
    if s.len() == 0 || char_width(s[0]) > budget {
        Seq::empty()
    } else {
        seq![s[0]] + clip(s.drop_first(), budget - char_width(s[0]))
    }
}

/// The longest prefix within `budget` bytes is the whole text exactly when
/// the text takes at most `budget` bytes.
proof fn lemma_clip_whole(s: Seq<char>, budget: int)
    requires
        budget >= 0,
    ensures
        utf8_len(s) >= 0,
        clip(s, budget).len() <= s.len(),
        (clip(s, budget).len() == s.len()) == (utf8_len(s) <= budget),
    decreases s.len(),
{
    if s.len() > 0 {
        let w = char_width(s[0]);
        if w > budget {
            lemma_clip_whole(s.drop_first(), 0);
        } else {
            lemma_clip_whole(s.drop_first(), budget - w);
        }
    }
}

/// A value's text for a report: its compact JSON text, cut to the first 200
/// bytes and marked with `…` when longer.
pub open spec fn short_text(v: JsonValue) -> Seq<char> {
    let s = render(v);
    if utf8_len(s) > 200 {
        clip(s, 200) + seq!['\u{2026}']
    } else {
        s
    }
}

fn char_width_exec(c: char) -> (w: usize)
    ensures
        w == char_width(c),
{
    let n = c as u32;
    if n < 0x80 {
        1
    } else if n < 0x800 {
        2
    } else if n < 0x10000 {
        3
    } else {
        4
    }
}

/// A value's text for a report (see [`short_text`]).
pub fn short(v: &JsonValue) -> (r: String)
    ensures
        r@ == short_text(*v),
{
    let mut s = String::new();
    push_render(&mut s, v);
    proof {
        assert(s@ =~= render(*v));
    }
    let c = str_chars(s.as_str());
    let mut out: Vec<char> = Vec::new();
    let mut budget: usize = 200;
    let mut i: usize = 0;
    proof {
        assert(c@.skip(0) =~= c@);
    }
    while i < c.len() && char_width_exec(c[i]) <= budget
        invariant
            0 <= i <= c@.len(),
            budget <= 200,
            out@.len() == i,
            out@ + clip(c@.skip(i as int), budget as int) == clip(c@, 200),
        decreases c@.len() - i,
    {
        proof {
            assert(c@.skip(i as int).drop_first() =~= c@.skip(i + 1));
            assert(c@.skip(i as int)[0] == c@[i as int]);
        }
        let w = char_width_exec(c[i]);
        out.push(c[i]);
        budget = budget - w;
        i = i + 1;
    }
    proof {
        if i < c@.len() {
            assert(c@.skip(i as int)[0] == c@[i as int]);
        }
        assert(clip(c@.skip(i as int), budget as int) =~= Seq::<char>::empty());
        assert(out@ =~= clip(c@, 200));
        lemma_clip_whole(c@, 200);
    }
    if i == c.len() {
        return s;
    }
    out.push('\u{2026}');
    string_of_chars(&out)
}

/// The keys of an object's entries, in order.
pub open spec fn keys_of(m: Seq<(String, JsonValue)>) -> Seq<Seq<char>> {
    m.map_values(|e: (String, JsonValue)| e.0@)
}

/// The position of the first entry with key `k`, or -1 when there is none.
pub open spec fn find_key(m: Seq<(String, JsonValue)>, k: Seq<char>) -> int
    decreases m.len(),
{
    if m.len() == 0 {
        -1
    } else if m[0].0@ == k {
        0
    } else {
        let r = find_key(m.drop_first(), k);
        if r < 0 {
            -1
        } else {
            r + 1
        }
    }
}

/// [`find_key`] is -1, or the position of the first entry with that key.
pub proof fn lemma_find_key(m: Seq<(String, JsonValue)>, k: Seq<char>)
    ensures
        -1 <= find_key(m, k) < m.len(),
        find_key(m, k) >= 0 ==> m[find_key(m, k)].0@ == k,
        find_key(m, k) >= 0 ==> forall|j: int| 0 <= j < find_key(m, k) ==> (#[trigger] m[j]).0@ != k,
        find_key(m, k) < 0 <==> !keys_of(m).contains(k),
    decreases m.len(),
{
    if m.len() > 0 {
        lemma_find_key(m.drop_first(), k);
        if m[0].0@ != k {
            let r = find_key(m, k);
            if r >= 0 {
                assert forall|j: int| 0 <= j < r implies (#[trigger] m[j]).0@ != k by {
                    if j > 0 {
                        assert(m[j] == m.drop_first()[j - 1]);
                    }
                }
            }
            if keys_of(m).contains(k) {
                let j = choose|j: int| 0 <= j < keys_of(m).len() && keys_of(m)[j] == k;
                assert(keys_of(m.drop_first())[j - 1] == k);
            }
            if keys_of(m.drop_first()).contains(k) {
                let j = choose|j: int| 0 <= j < keys_of(m.drop_first()).len() && keys_of(m.drop_first())[j] == k;
                assert(keys_of(m)[j + 1] == k);
            }
        } else {
            assert(keys_of(m)[0] == k);
        }
    }
}

/// The keys of two objects, each once, in increasing order.
pub open spec fn union_keys(a: Seq<(String, JsonValue)>, b: Seq<(String, JsonValue)>) -> Seq<Seq<char>> {
    choose|s: Seq<Seq<char>>| strictly_sorted(s) && s.to_set() == keys_of(a).to_set().union(keys_of(b).to_set())
}

/// Which of the six kinds of JSON value `v` is.
pub open spec fn kind_of(v: JsonValue) -> int {
    match v {
        JsonValue::Null => 0,
        JsonValue::Bool(_) => 1,
        JsonValue::Number(_) => 2,
        JsonValue::Str(_) => 3,
        JsonValue::Array(_) => 4,
        JsonValue::Object(_) => 5,
    }
}

/// Two nulls, two equal booleans, or two equal strings.
pub open spec fn scalars_equal(x: JsonValue, y: JsonValue) -> bool {
    match (x, y) {
        (JsonValue::Null, JsonValue::Null) => true,
        (JsonValue::Bool(p), JsonValue::Bool(q)) => p == q,
        (JsonValue::Str(p), JsonValue::Str(q)) => p@ == q@,
        _ => false,
    }
}

/// A difference of two values at `path`: a value mismatch when they are of
/// one kind, a type mismatch otherwise.
pub open spec fn mismatch(path: Seq<char>, go: JsonValue, rust: JsonValue) -> DiffView {
    DiffView {
        path,
        go: short_text(go),
        rust: short_text(rust),
        note: if kind_of(go) == kind_of(rust) {
            "value mismatch"@
        } else {
            "type mismatch"@
        },
    }
}

/// `path` extended by one segment.
pub open spec fn child_path(path: Seq<char>, seg: Seq<char>) -> Seq<char> {
    path + seq!['/'] + seg
}

/// `<array len N>`.
pub open spec fn array_len_text(n: nat) -> Seq<char> {
    "<array len "@ + dec(n) + seq!['>']
}

/// The differences of two values at `path`. Objects are compared key by key
/// over the keys of both, in increasing order, with exact letter case;
/// arrays by length and then element by element over the common length;
/// numbers by [`numbers_equal`]; anything else by kind and value.
pub open spec fn diff_spec(path: Seq<char>, go: JsonValue, rust: JsonValue, close: CloseNumbers) -> Seq<DiffView>
    decreases go, 0int,
{
    match go {
        JsonValue::Object(a) => match rust {
            JsonValue::Object(b) => diff_entries(path, a@, b@, union_keys(a@, b@), close),
            _ => seq![mismatch(path, go, rust)],
        },
        JsonValue::Array(a) => match rust {
            JsonValue::Array(b) => (if a@.len() == b@.len() {
                Seq::empty()
            } else {
                seq![DiffView {
                    path,
                    go: array_len_text(a@.len()),
                    rust: array_len_text(b@.len()),
                    note: "array length mismatch"@,
                }]
            }) + diff_items(path, a@, b@, 0, close),
            _ => seq![mismatch(path, go, rust)],
        },
        JsonValue::Number(x) => match rust {
            JsonValue::Number(y) => if numbers_equal(x, y, close) {
                Seq::empty()
            } else {
                seq![mismatch(path, go, rust)]
            },
            _ => seq![mismatch(path, go, rust)],
        },
        _ => if scalars_equal(go, rust) {
            Seq::empty()
        } else {
            seq![mismatch(path, go, rust)]
        },
    }
}

/// The differences under each of `keys`, in order: the diff of the two
/// values where both objects have the key, a one-sided entry where only one
/// has it.
pub open spec fn diff_entries(
    path: Seq<char>,
    a: Seq<(String, JsonValue)>,
    b: Seq<(String, JsonValue)>,
    keys: Seq<Seq<char>>,
    close: CloseNumbers,
) -> Seq<DiffView>
    decreases a, keys.len(),
{
    if keys.len() == 0 {
        Seq::empty()
    } else {
        let k = keys[0];
        let ia = find_key(a, k);
        let ib = find_key(b, k);
        let p = child_path(path, k);
        let here = if ia >= 0 && ib >= 0 {
            proof {
                lemma_find_key(a, k);
                assert(decreases_to!(a => a[ia]));
                assert(decreases_to!(a[ia] => a[ia].1));
            }
            diff_spec(p, a[ia].1, b[ib].1, close)
        } else if ia >= 0 {
            seq![DiffView { path: p, go: short_text(a[ia].1), rust: "<absent>"@, note: "key present in go, absent in rust"@ }]
        } else if ib >= 0 {
            seq![DiffView { path: p, go: "<absent>"@, rust: short_text(b[ib].1), note: "key present in rust, absent in go"@ }]
        } else {
            Seq::empty()
        };
        here + diff_entries(path, a, b, keys.drop_first(), close)
    }
}

/// The differences of the elements at positions `i` and on, up to the
/// shorter length.
pub open spec fn diff_items(path: Seq<char>, a: Seq<JsonValue>, b: Seq<JsonValue>, i: int, close: CloseNumbers) -> Seq<
    DiffView,
>
    decreases a, a.len() - i,
{
    if i < 0 || i >= a.len() || i >= b.len() {
        Seq::empty()
    } else {
        diff_spec(child_path(path, dec(i as nat)), a[i], b[i], close) + diff_items(path, a, b, i + 1, close)
    }
}

/// Append one difference.
fn push_diff(out: &mut Vec<FieldDiff>, d: FieldDiff)
    ensures
        views(final(out)@) == views(old(out)@).push(d@),
{
    let ghost before = out@;
    out.push(d);
    proof {
        assert(views(out@) =~= views(before).push(d@));
    }
}

/// An owned copy of `s`.
fn owned(s: &str) -> (r: String)
    ensures
        r@ == s@,
{
    let mut r = String::new();
    r.append(s);
    proof {
        assert(r@ =~= s@);
    }
    r
}

/// `path`, a slash, and `seg`.
fn child(path: &str, seg: &str) -> (r: String)
    ensures
        r@ == child_path(path@, seg@),
{
    let mut r = String::new();
    r.append(path);
    r.append("/");
    r.append(seg);
    proof {
        reveal_strlit("/");
        assert(r@ =~= child_path(path@, seg@));
    }
    r
}

/// `<array len N>`.
fn array_len(n: usize) -> (r: String)
    ensures
        r@ == array_len_text(n as nat),
{
    let mut r = String::new();
    r.append("<array len ");
    push_dec(&mut r, n as u64);
    r.append(">");
    proof {
        reveal_strlit(">");
        assert(r@ =~= array_len_text(n as nat));
    }
    r
}

/// The position of the first entry with key `k` (see [`find_key`]).
fn find_entry(m: &Vec<(String, JsonValue)>, k: &str) -> (r: Option<usize>)
    ensures
        match r {
            Some(i) => find_key(m@, k@) == i,
            None => find_key(m@, k@) < 0,
        },
{
    proof {
        lemma_find_key(m@, k@);
    }
    let mut i: usize = 0;
    while i < m.len()
        invariant
            0 <= i <= m@.len(),
            forall|j: int| 0 <= j < i ==> (#[trigger] m@[j]).0@ != k@,
        decreases m@.len() - i,
    {
        if str_eq(m[i].0.as_str(), k) {
            proof {
                lemma_find_key(m@, k@);
                assert(keys_of(m@)[i as int] == k@);
                assert(keys_of(m@).contains(k@));
                let r = find_key(m@, k@);
                assert(r >= 0);
                assert(m@[r].0@ == k@);
                assert(m@[i as int].0@ == k@);
            }
            return Some(i);
        }
        i = i + 1;
    }
    proof {
        lemma_find_key(m@, k@);
        if keys_of(m@).contains(k@) {
            let j = choose|j: int| 0 <= j < keys_of(m@).len() && keys_of(m@)[j] == k@;
            assert(m@[j].0@ == k@);
        }
    }
    None
}

/// Which kind of value `v` is (see [`kind_of`]).
fn kind_code(v: &JsonValue) -> (r: u8)
    ensures
        r == kind_of(*v),
{
    match v {
        JsonValue::Null => 0,
        JsonValue::Bool(_) => 1,
        JsonValue::Number(_) => 2,
        JsonValue::Str(_) => 3,
        JsonValue::Array(_) => 4,
        JsonValue::Object(_) => 5,
    }
}

/// Whether two values are equal nulls, booleans or strings.
fn scalars_eq(x: &JsonValue, y: &JsonValue) -> (r: bool)
    ensures
        r == scalars_equal(*x, *y),
{
    match (x, y) {
        (JsonValue::Null, JsonValue::Null) => true,
        (JsonValue::Bool(p), JsonValue::Bool(q)) => *p == *q,
        (JsonValue::Str(p), JsonValue::Str(q)) => str_eq(p.as_str(), q.as_str()),
        _ => false,
    }
}

/// The difference of two values at `path` (see [`mismatch`]).
fn mismatch_diff(path: &str, go: &JsonValue, rust: &JsonValue) -> (d: FieldDiff)
    ensures
        d@ == mismatch(path@, *go, *rust),
{
    let note = if kind_code(go) == kind_code(rust) {
        "value mismatch"
    } else {
        "type mismatch"
    };
    FieldDiff { path: owned(path), go: short(go), rust: short(rust), note }
}

/// The keys of `a` and of `b`, each once, in increasing order (see
/// [`union_keys`]).
fn sorted_keys(a: &Vec<(String, JsonValue)>, b: &Vec<(String, JsonValue)>) -> (r: Vec<String>)
    ensures
        r@.map_values(|t: String| t@) == union_keys(a@, b@),
{
    let mut ks: Vec<String> = Vec::new();
    let mut i: usize = 0;
    while i < a.len()
        invariant
            0 <= i <= a@.len(),
            ks@.map_values(|t: String| t@) == keys_of(a@.take(i as int)),
        decreases a@.len() - i,
    {
        let ghost before = ks@;
        let key = a[i].0.clone();
        ks.push(key);
        proof {
            assert(key@ == a@[i as int].0@);
            assert(a@.take(i + 1) =~= a@.take(i as int).push(a@[i as int]));
            assert(ks@ =~= before.push(key));
            assert(ks@.map_values(|t: String| t@) =~= before.map_values(|t: String| t@).push(key@));
            assert(keys_of(a@.take(i + 1)) =~= keys_of(a@.take(i as int)).push(a@[i as int].0@));
            assert(ks@.map_values(|t: String| t@) =~= keys_of(a@.take(i + 1)));
        }
        i = i + 1;
    }
    let mut i: usize = 0;
    proof {
        assert(a@.take(a@.len() as int) =~= a@);
    }
    while i < b.len()
        invariant
            0 <= i <= b@.len(),
            ks@.map_values(|t: String| t@) == keys_of(a@) + keys_of(b@.take(i as int)),
        decreases b@.len() - i,
    {
        let ghost before = ks@;
        let key = b[i].0.clone();
        ks.push(key);
        proof {
            assert(key@ == b@[i as int].0@);
            assert(b@.take(i + 1) =~= b@.take(i as int).push(b@[i as int]));
            assert(ks@ =~= before.push(key));
            assert(ks@.map_values(|t: String| t@) =~= before.map_values(|t: String| t@).push(key@));
            assert(keys_of(b@.take(i + 1)) =~= keys_of(b@.take(i as int)).push(b@[i as int].0@));
            assert(ks@.map_values(|t: String| t@) =~= keys_of(a@) + keys_of(b@.take(i + 1)));
        }
        i = i + 1;
    }
    let r = sort_dedup(&ks);
    proof {
        assert(b@.take(b@.len() as int) =~= b@);
        let all = keys_of(a@) + keys_of(b@);
        let sv = r@.map_values(|t: String| t@);
        assert forall|x: Seq<char>| all.to_set().contains(x) <==> keys_of(a@).to_set().union(
            keys_of(b@).to_set(),
        ).contains(x) by {
            if all.to_set().contains(x) {
                let j = choose|j: int| 0 <= j < all.len() && all[j] == x;
                if j < keys_of(a@).len() {
                    assert(keys_of(a@)[j] == x);
                } else {
                    assert(keys_of(b@)[j - keys_of(a@).len()] == x);
                }
            }
            if keys_of(a@).to_set().contains(x) {
                let j = choose|j: int| 0 <= j < keys_of(a@).len() && keys_of(a@)[j] == x;
                assert(all[j] == x);
            }
            if keys_of(b@).to_set().contains(x) {
                let j = choose|j: int| 0 <= j < keys_of(b@).len() && keys_of(b@)[j] == x;
                assert(all[j + keys_of(a@).len()] == x);
            }
        }
        assert(all.to_set() =~= keys_of(a@).to_set().union(keys_of(b@).to_set()));
        let u = union_keys(a@, b@);
        assert(strictly_sorted(u) && u.to_set() == keys_of(a@).to_set().union(keys_of(b@).to_set()));
        lemma_strictly_sorted_unique(sv, u);
    }
    r
}

/// Append the differences of `go` and `rust` at `path` (see [`diff_spec`]).
pub fn diff_value(path: &str, go: &JsonValue, rust: &JsonValue, close: &CloseNumbers, out: &mut Vec<FieldDiff>)
    ensures
        views(final(out)@) == views(old(out)@) + diff_spec(path@, *go, *rust, *close),
    decreases go,
{
    let ghost start = views(out@);
    match go {
        JsonValue::Object(a) => match rust {
            JsonValue::Object(b) => {
                let keys = sorted_keys(a, b);
                let ghost kv = keys@.map_values(|t: String| t@);
                let mut j: usize = 0;
                proof {
                    assert(kv.skip(0) =~= kv);
                    assert(views(out@) =~= start + Seq::<DiffView>::empty());
                }
                while j < keys.len()
                    invariant
                        0 <= j <= keys@.len(),
                        kv == keys@.map_values(|t: String| t@),
                        kv == union_keys(a@, b@),
                        *go == JsonValue::Object(*a),
                        views(out@) + diff_entries(path@, a@, b@, kv.skip(j as int), *close) == start
                            + diff_entries(path@, a@, b@, kv, *close),
                    decreases keys@.len() - j,
                {
                    let k = keys[j].as_str();
                    let ghost rest = kv.skip(j as int);
                    let ghost before = views(out@);
                    proof {
                        assert(rest[0] == k@);
                        assert(rest.drop_first() =~= kv.skip(j + 1));
                        lemma_find_key(a@, k@);
                        lemma_find_key(b@, k@);
                    }
                    let p = child(path, k);
                    match (find_entry(a, k), find_entry(b, k)) {
                        (Some(x), Some(y)) => {
                            proof {
                                assert(decreases_to!(a@[x as int] => a@[x as int].1));
                                assert(decreases_to!(a@ => a@[x as int]));
                                assert(decreases_to!(*a => a@));
                                assert(decreases_to!(*go => (*go)->Object_0));
                            }
                            diff_value(p.as_str(), &a[x].1, &b[y].1, close, out);
                        },
                        (Some(x), None) => {
                            let d = FieldDiff {
                                path: p,
                                go: short(&a[x].1),
                                rust: owned("<absent>"),
                                note: "key present in go, absent in rust",
                            };
                            push_diff(out, d);
                        },
                        (None, Some(y)) => {
                            let d = FieldDiff {
                                path: p,
                                go: owned("<absent>"),
                                rust: short(&b[y].1),
                                note: "key present in rust, absent in go",
                            };
                            push_diff(out, d);
                        },
                        (None, None) => {},
                    }
                    proof {
                        assert(views(out@) + diff_entries(path@, a@, b@, kv.skip(j + 1), *close) =~= before
                            + diff_entries(path@, a@, b@, rest, *close));
                    }
                    j = j + 1;
                }
                proof {
                    assert(kv.skip(keys@.len() as int) =~= Seq::<Seq<char>>::empty());
                    assert(views(out@) =~= start + diff_entries(path@, a@, b@, kv, *close));
                }
            },
            _ => push_diff(out, mismatch_diff(path, go, rust)),
        },
        JsonValue::Array(a) => match rust {
            JsonValue::Array(b) => {
                if a.len() != b.len() {
                    let d = FieldDiff {
                        path: owned(path),
                        go: array_len(a.len()),
                        rust: array_len(b.len()),
                        note: "array length mismatch",
                    };
                    push_diff(out, d);
                }
                let ghost mid = views(out@);
                let n = if a.len() < b.len() {
                    a.len()
                } else {
                    b.len()
                };
                let mut i: usize = 0;
                while i < n
                    invariant
                        0 <= i <= n,
                        n <= a@.len(),
                        n <= b@.len(),
                        n == a@.len() || n == b@.len(),
                        *go == JsonValue::Array(*a),
                        views(out@) + diff_items(path@, a@, b@, i as int, *close) == mid + diff_items(
                            path@,
                            a@,
                            b@,
                            0,
                            *close,
                        ),
                    decreases n - i,
                {
                    let ghost before = views(out@);
                    let mut seg = String::new();
                    push_dec(&mut seg, i as u64);
                    proof {
                        assert(seg@ =~= dec(i as nat));
                        assert(decreases_to!(a@ => a@[i as int]));
                        assert(decreases_to!(*a => a@));
                        assert(decreases_to!(*go => (*go)->Array_0));
                    }
                    let p = child(path, seg.as_str());
                    diff_value(p.as_str(), &a[i], &b[i], close, out);
                    proof {
                        assert(views(out@) + diff_items(path@, a@, b@, i + 1, *close) =~= before + diff_items(
                            path@,
                            a@,
                            b@,
                            i as int,
                            *close,
                        ));
                    }
                    i = i + 1;
                }
                proof {
                    assert(views(out@) =~= mid + diff_items(path@, a@, b@, 0, *close));
                }
            },
            _ => push_diff(out, mismatch_diff(path, go, rust)),
        },
        JsonValue::Number(x) => match rust {
            JsonValue::Number(y) => {
                if !numbers_match(x, y, close) {
                    push_diff(out, mismatch_diff(path, go, rust));
                }
            },
            _ => push_diff(out, mismatch_diff(path, go, rust)),
        },
        _ => {
            if !scalars_eq(go, rust) {
                push_diff(out, mismatch_diff(path, go, rust));
            }
        },
    }
}

/// The key paths of a value: for each object entry, its path and then the
/// paths under its value; for an array, the paths of its first element under
/// `/[]`. Scalar values, array lengths and later elements leave no trace.
pub open spec fn skeleton(v: JsonValue, prefix: Seq<char>) -> Seq<Seq<char>>
    decreases v, 0int,
{
    match v {
        JsonValue::Object(m) => skeleton_entries(m@, prefix, 0),
        JsonValue::Array(a) => if a@.len() > 0 {
            skeleton(a@[0], prefix + "/[]"@)
        } else {
            Seq::empty()
        },
        _ => Seq::empty(),
    }
}

/// The key paths of the entries at positions `i` and on.
pub open spec fn skeleton_entries(m: Seq<(String, JsonValue)>, prefix: Seq<char>, i: int) -> Seq<Seq<char>>
    decreases m, m.len() - i,
{
    if i < 0 || i >= m.len() {
        Seq::empty()
    } else {
        let p = child_path(prefix, m[i].0@);
        seq![p] + skeleton(m[i].1, p) + skeleton_entries(m, prefix, i + 1)
    }
}

/// Append the key paths of `v` under `prefix` (see [`skeleton`]).
pub fn key_skeleton(v: &JsonValue, prefix: &str, set: &mut Vec<String>)
    ensures
        set_view(final(set)@) == set_view(old(set)@) + skeleton(*v, prefix@),
    decreases v,
{
    proof {
        reveal_strlit("/[]");
    }
    let ghost start = set_view(set@);
    match v {
        JsonValue::Object(m) => {
            let mut i: usize = 0;
            proof {
                assert(set_view(set@) =~= start + Seq::<Seq<char>>::empty());
            }
            while i < m.len()
                invariant
                    0 <= i <= m@.len(),
                    *v == JsonValue::Object(*m),
                    set_view(set@) + skeleton_entries(m@, prefix@, i as int) == start + skeleton_entries(
                        m@,
                        prefix@,
                        0,
                    ),
                decreases m@.len() - i,
            {
                let ghost before = set_view(set@);
                let p = child(prefix, m[i].0.as_str());
                set.push(p.clone());
                proof {
                    assert(set_view(set@) =~= before.push(p@));
                    assert(decreases_to!(m@[i as int] => m@[i as int].1));
                    assert(decreases_to!(m@ => m@[i as int]));
                    assert(decreases_to!(*m => m@));
                    assert(decreases_to!(*v => (*v)->Object_0));
                }
                key_skeleton(&m[i].1, p.as_str(), set);
                proof {
                    assert(set_view(set@) + skeleton_entries(m@, prefix@, i + 1) =~= before + skeleton_entries(
                        m@,
                        prefix@,
                        i as int,
                    ));
                }
                i = i + 1;
            }
            proof {
                assert(set_view(set@) =~= start + skeleton_entries(m@, prefix@, 0));
            }
        },
        JsonValue::Array(a) => {
            if a.len() > 0 {
                let mut p = String::new();
                p.append(prefix);
                p.append("/[]");
                proof {
                    assert(p@ =~= prefix@ + "/[]"@);
                    assert(decreases_to!(a@ => a@[0]));
                    assert(decreases_to!(*a => a@));
                    assert(decreases_to!(*v => (*v)->Array_0));
                }
                key_skeleton(&a[0], p.as_str(), set);
            } else {
                proof {
                    assert(set_view(set@) =~= start + Seq::<Seq<char>>::empty());
                }
            }
        },
        _ => {
            proof {
                assert(set_view(set@) =~= start + Seq::<Seq<char>>::empty());
            }
        },
    }
}

/// The texts of a list of strings.
pub open spec fn set_view(s: Seq<String>) -> Seq<Seq<char>> {
    s.map_values(|t: String| t@)
}

/// The pieces of `s` between slashes, as `str::split('/')` gives them: one
/// more piece than there are slashes.
pub open spec fn split_slash(s: Seq<char>) -> Seq<Seq<char>> {
    split_from(s, Seq::empty())
}

/// The pieces of `s`, the first of them continuing `cur`.
pub open spec fn split_from(s: Seq<char>, cur: Seq<char>) -> Seq<Seq<char>>
    decreases s.len(),
{
    if s.len() == 0 {
        seq![cur]
    } else if s[0] == '/' {
        seq![cur] + split_from(s.drop_first(), Seq::empty())
    } else {
        split_from(s.drop_first(), cur.push(s[0]))
    }
}

/// A text with no slash is a single piece.
pub proof fn lemma_split_plain(s: Seq<char>, cur: Seq<char>)
    requires
        forall|i: int| 0 <= i < s.len() ==> s[i] != '/',
    ensures
        split_from(s, cur) == seq![cur + s],
    decreases s.len(),
{
    if s.len() == 0 {
        assert(cur + s =~= cur);
    } else {
        lemma_split_plain(s.drop_first(), cur.push(s[0]));
        assert(cur.push(s[0]) + s.drop_first() =~= cur + s);
    }
}

/// The value reached from `v` by following each of `segs` as an object key
/// (the first entry with that key); `None` where a step finds no object or
/// no such key.
pub open spec fn lookup(v: JsonValue, segs: Seq<Seq<char>>) -> Option<JsonValue>
    decreases segs.len(),
{
    if segs.len() == 0 {
        Some(v)
    } else {
        match v {
            JsonValue::Object(m) => {
                let i = find_key(m@, segs[0]);
                if 0 <= i < m@.len() {
                    lookup(m@[i].1, segs.drop_first())
                } else {
                    None
                }
            },
            _ => None,
        }
    }
}

/// The pieces of `s` between slashes (see [`split_slash`]).
fn split_on_slash(s: &str) -> (r: Vec<String>)
    ensures
        set_view(r@) == split_slash(s@),
{
    let c = str_chars(s);
    let mut pieces: Vec<String> = Vec::new();
    let mut cur: Vec<char> = Vec::new();
    let mut i: usize = 0;
    proof {
        assert(c@.skip(0) =~= c@);
        assert(set_view(pieces@) + split_from(c@.skip(0), cur@) =~= split_slash(s@));
    }
    while i < c.len()
        invariant
            0 <= i <= c@.len(),
            c@ == s@,
            set_view(pieces@) + split_from(c@.skip(i as int), cur@) == split_slash(s@),
        decreases c@.len() - i,
    {
        let ghost rest = c@.skip(i as int);
        let ghost before = set_view(pieces@);
        proof {
            assert(rest.drop_first() =~= c@.skip(i + 1));
            assert(rest[0] == c@[i as int]);
        }
        if c[i] == '/' {
            let t = string_of_chars(&cur);
            pieces.push(t);
            cur = Vec::new();
            proof {
                assert(set_view(pieces@) =~= before.push(t@));
                assert(set_view(pieces@) + split_from(c@.skip(i + 1), cur@) =~= before + split_from(rest, t@));
            }
        } else {
            let ghost old_cur = cur@;
            cur.push(c[i]);
        }
        i = i + 1;
    }
    let t = string_of_chars(&cur);
    let ghost before = set_view(pieces@);
    pieces.push(t);
    proof {
        assert(c@.skip(i as int) =~= Seq::<char>::empty());
        assert(set_view(pieces@) =~= before.push(t@));
        assert(set_view(pieces@) =~= before + split_from(c@.skip(i as int), t@));
    }
    pieces
}

/// The value at a `/`-separated path of object keys (see [`lookup`]).
pub fn pointer<'a>(v: &'a JsonValue, ptr: &str) -> (r: Option<&'a JsonValue>)
    ensures
        match r {
            Some(x) => lookup(*v, split_slash(ptr@)) == Some(*x),
            None => lookup(*v, split_slash(ptr@)) is None,
        },
{
    let segs = split_on_slash(ptr);
    let ghost sv = set_view(segs@);
    let mut cur: &'a JsonValue = v;
    let mut i: usize = 0;
    proof {
        assert(sv.skip(0) =~= sv);
    }
    while i < segs.len()
        invariant
            0 <= i <= segs@.len(),
            sv == set_view(segs@),
            sv == split_slash(ptr@),
            lookup(*v, sv) == lookup(*cur, sv.skip(i as int)),
        decreases segs@.len() - i,
    {
        let ghost rest = sv.skip(i as int);
        proof {
            assert(rest[0] == segs@[i as int]@);
            assert(rest.drop_first() =~= sv.skip(i + 1));
        }
        match cur {
            JsonValue::Object(m) => match find_entry(m, segs[i].as_str()) {
                Some(x) => {
                    proof {
                        lemma_find_key(m@, segs@[i as int]@);
                    }
                    cur = &m[x].1;
                },
                None => {
                    return None;
                },
            },
            _ => {
                return None;
            },
        }
        i = i + 1;
    }
    proof {
        assert(sv.skip(segs@.len() as int) =~= Seq::<Seq<char>>::empty());
    }
    Some(cur)
}

/// Which callback a captured payload came through.
#[derive(Clone, Copy, PartialEq, Eq, Debug, Structural)]
pub enum CbKind {
    Done,
    Preprocess,
    Progress,
}

/// One captured callback payload: its text, and its parse with volatile
/// keys normalized (`None` when the text is not JSON).
#[derive(Debug)]
pub struct Event {
    pub kind: CbKind,
    pub value: Option<JsonValue>,
    pub raw: String,
}

/// All events one step produced on one side.
#[derive(Debug)]
pub struct StepCapture {
    pub events: Vec<Event>,
}

/// The parsed payloads of the events of `kind`, in order.
pub open spec fn partition_spec(events: Seq<Event>, kind: CbKind) -> Seq<JsonValue>
    decreases events.len(),
{
    if events.len() == 0 {
        Seq::empty()
    } else {
        let init = partition_spec(events.drop_last(), kind);
        let e = events.last();
        if e.kind == kind && e.value is Some {
            init.push(e.value->0)
        } else {
            init
        }
    }
}

/// The values a list of references points to.
pub open spec fn derefs<'a>(s: Seq<&'a JsonValue>) -> Seq<JsonValue> {
    s.map_values(|x: &'a JsonValue| *x)
}

/// The parsed payloads of the events of `kind` (see [`partition_spec`]).
pub fn partition<'a>(events: &'a Vec<Event>, kind: CbKind) -> (r: Vec<&'a JsonValue>)
    ensures
        derefs(r@) == partition_spec(events@, kind),
{
    let mut r: Vec<&'a JsonValue> = Vec::new();
    let mut i: usize = 0;
    while i < events.len()
        invariant
            0 <= i <= events@.len(),
            derefs(r@) == partition_spec(events@.take(i as int), kind),
        decreases events@.len() - i,
    {
        let e = &events[i];
        let ghost before = derefs(r@);
        proof {
            assert(events@.take(i + 1).drop_last() =~= events@.take(i as int));
            assert(events@.take(i + 1).last() == events@[i as int]);
        }
        if e.kind == kind {
            match &e.value {
                Some(v) => {
                    r.push(v);
                    proof {
                        assert(derefs(r@) =~= before.push(*v));
                    }
                },
                None => {},
            }
        }
        i = i + 1;
    }
    proof {
        assert(events@.take(events@.len() as int) =~= events@);
    }
    r
}

/// `[label]`.
pub open spec fn bracket(label: Seq<char>) -> Seq<char> {
    seq!['['] + label + seq![']']
}

/// `N event(s)`.
pub open spec fn events_text(n: nat) -> Seq<char> {
    dec(n) + " event(s)"@
}

/// The differences of two streams of single, deterministic payloads: a
/// count mismatch when the lengths differ, then each common position diffed
/// under `[label#i]`.
pub open spec fn exact_stream_spec(
    label: Seq<char>,
    go: Seq<JsonValue>,
    rust: Seq<JsonValue>,
    close: CloseNumbers,
) -> Seq<DiffView> {
    (if go.len() == rust.len() {
        Seq::empty()
    } else {
        seq![DiffView {
            path: bracket(label),
            go: events_text(go.len()),
            rust: events_text(rust.len()),
            note: "callback count mismatch"@,
        }]
    }) + stream_items(label, go, rust, 0, close)
}

/// The diffs of the payloads at positions `i` and on, up to the shorter
/// stream's length.
pub open spec fn stream_items(label: Seq<char>, go: Seq<JsonValue>, rust: Seq<JsonValue>, i: int, close: CloseNumbers) -> Seq<
    DiffView,
>
    decreases go.len() - i,
{
    if i < 0 || i >= go.len() || i >= rust.len() {
        Seq::empty()
    } else {
        diff_spec(seq!['['] + label + seq!['#'] + dec(i as nat) + seq![']'], go[i], rust[i], close) + stream_items(
            label,
            go,
            rust,
            i + 1,
            close,
        )
    }
}

/// `[label]` as a string.
fn bracketed(label: &str) -> (r: String)
    ensures
        r@ == bracket(label@),
{
    let mut r = String::new();
    r.append("[");
    r.append(label);
    r.append("]");
    proof {
        reveal_strlit("[");
        reveal_strlit("]");
        assert(r@ =~= bracket(label@));
    }
    r
}

/// `N event(s)` as a string.
fn events_count(n: usize) -> (r: String)
    ensures
        r@ == events_text(n as nat),
{
    let mut r = String::new();
    push_dec(&mut r, n as u64);
    r.append(" event(s)");
    proof {
        assert(r@ =~= events_text(n as nat));
    }
    r
}

/// Append the differences of two streams of single payloads (see
/// [`exact_stream_spec`]).
pub fn diff_exact_stream(
    label: &str,
    go: &[&JsonValue],
    rust: &[&JsonValue],
    close: &CloseNumbers,
    out: &mut Vec<FieldDiff>,
)
    ensures
        views(final(out)@) == views(old(out)@) + exact_stream_spec(label@, derefs(go@), derefs(rust@), *close),
{
    let ghost start = views(out@);
    let ghost g = derefs(go@);
    let ghost r = derefs(rust@);
    if go.len() != rust.len() {
        let d = FieldDiff {
            path: bracketed(label),
            go: events_count(go.len()),
            rust: events_count(rust.len()),
            note: "callback count mismatch",
        };
        push_diff(out, d);
    }
    let ghost mid = views(out@);
    let n = if go.len() < rust.len() {
        go.len()
    } else {
        rust.len()
    };
    let mut i: usize = 0;
    while i < n
        invariant
            0 <= i <= n,
            n <= go@.len(),
            n <= rust@.len(),
            n == go@.len() || n == rust@.len(),
            g == derefs(go@),
            r == derefs(rust@),
            views(out@) + stream_items(label@, g, r, i as int, *close) == mid + stream_items(
                label@,
                g,
                r,
                0,
                *close,
            ),
        decreases n - i,
    {
        let ghost before = views(out@);
        let mut p = String::new();
        p.append("[");
        p.append(label);
        p.append("#");
        push_dec(&mut p, i as u64);
        p.append("]");
        proof {
            reveal_strlit("[");
            reveal_strlit("#");
            reveal_strlit("]");
            assert(p@ =~= seq!['['] + label@ + seq!['#'] + dec(i as nat) + seq![']']);
        }
        diff_value(p.as_str(), go[i], rust[i], close, out);
        proof {
            assert(views(out@) + stream_items(label@, g, r, i + 1, *close) =~= before + stream_items(
                label@,
                g,
                r,
                i as int,
                *close,
            ));
        }
        i = i + 1;
    }
    proof {
        assert(views(out@) =~= mid + stream_items(label@, g, r, 0, *close));
        assert(views(out@) =~= start + exact_stream_spec(label@, g, r, *close));
    }
}

/// The distinct texts of `s`, in increasing order.
pub open spec fn sorted_set(s: Seq<Seq<char>>) -> Seq<Seq<char>> {
    choose|t: Seq<Seq<char>>| strictly_sorted(t) && t.to_set() == s.to_set()
}

/// The schema entries for the paths of `gs` from position `i` on that `rs`
/// lacks: present on the go side only.
pub open spec fn only_in_go(gs: Seq<Seq<char>>, rs: Seq<Seq<char>>, i: int) -> Seq<DiffView>
    decreases gs.len() - i,
{
    if i < 0 || i >= gs.len() {
        Seq::empty()
    } else {
        (if rs.contains(gs[i]) {
            Seq::empty()
        } else {
            seq![DiffView { path: gs[i], go: "<present>"@, rust: "<absent>"@, note: "schema: key only in go"@ }]
        }) + only_in_go(gs, rs, i + 1)
    }
}

/// The schema entries for the paths of `rs` from position `i` on that `gs`
/// lacks: present on the rust side only.
pub open spec fn only_in_rust(rs: Seq<Seq<char>>, gs: Seq<Seq<char>>, i: int) -> Seq<DiffView>
    decreases rs.len() - i,
{
    if i < 0 || i >= rs.len() {
        Seq::empty()
    } else {
        (if gs.contains(rs[i]) {
            Seq::empty()
        } else {
            seq![DiffView { path: rs[i], go: "<absent>"@, rust: "<present>"@, note: "schema: key only in rust"@ }]
        }) + only_in_rust(rs, gs, i + 1)
    }
}

/// `<present>` or `<absent>`.
pub open spec fn presence(b: bool) -> Seq<char> {
    if b {
        "<present>"@
    } else {
        "<absent>"@
    }
}

/// The differences of the run-invariant fields from position `i` on, each
/// looked up by its path in both terminal payloads: diffed where both have
/// it, reported where only one does.
pub open spec fn stable_diffs(
    label: Seq<char>,
    gt: JsonValue,
    rt: JsonValue,
    fields: Seq<Seq<char>>,
    i: int,
    close: CloseNumbers,
) -> Seq<DiffView>
    decreases fields.len() - i,
{
    if i < 0 || i >= fields.len() {
        Seq::empty()
    } else {
        let f = fields[i];
        let p = child_path(bracket(label), f);
        let ga = lookup(gt, split_slash(f));
        let rb = lookup(rt, split_slash(f));
        (if ga is Some && rb is Some {
            diff_spec(p, ga->0, rb->0, close)
        } else if ga is Some || rb is Some {
            seq![DiffView {
                path: p,
                go: presence(ga is Some),
                rust: presence(rb is Some),
                note: "stable field present on only one side"@,
            }]
        } else {
            Seq::empty()
        }) + stable_diffs(label, gt, rt, fields, i + 1, close)
    }
}

/// The line saying how many payloads each side sampled.
pub open spec fn sampled_info(label: Seq<char>, n: nat, m: nat) -> Seq<char> {
    label + ": go emitted "@ + dec(n) + ", rust emitted "@ + dec(m)
        + " (sampled \u{2014} count & intermediate values not compared)"@
}

/// The differences and notes of two sampled streams. When exactly one side
/// emitted the stream, that alone is reported; when neither did, nothing.
/// Otherwise a note gives both counts, and the terminal payloads are
/// compared by their key schema and by the `stable` fields only.
pub open spec fn sampled_spec(
    label: Seq<char>,
    go: Seq<JsonValue>,
    rust: Seq<JsonValue>,
    stable: Seq<Seq<char>>,
    close: CloseNumbers,
) -> (Seq<DiffView>, Seq<Seq<char>>) {
    if (go.len() == 0) != (rust.len() == 0) {
        (
            seq![DiffView {
                path: bracket(label),
                go: events_text(go.len()),
                rust: events_text(rust.len()),
                note: "one side emitted this callback stream, the other did not"@,
            }],
            Seq::empty(),
        )
    } else if go.len() == 0 {
        (Seq::empty(), Seq::empty())
    } else {
        let gt = go.last();
        let rt = rust.last();
        let gs = sorted_set(skeleton(gt, bracket(label)));
        let rs = sorted_set(skeleton(rt, bracket(label)));
        (
            only_in_go(gs, rs, 0) + only_in_rust(rs, gs, 0) + stable_diffs(label, gt, rt, stable, 0, close),
            seq![sampled_info(label, go.len(), rust.len())],
        )
    }
}

/// Whether `s` holds the text `x`.
fn has_text(s: &Vec<String>, x: &str) -> (r: bool)
    ensures
        r == set_view(s@).contains(x@),
{
    let mut i: usize = 0;
    while i < s.len()
        invariant
            0 <= i <= s@.len(),
            forall|j: int| 0 <= j < i ==> (#[trigger] s@[j])@ != x@,
        decreases s@.len() - i,
    {
        if str_eq(s[i].as_str(), x) {
            proof {
                assert(set_view(s@)[i as int] == x@);
            }
            return true;
        }
        i = i + 1;
    }
    proof {
        if set_view(s@).contains(x@) {
            let j = choose|j: int| 0 <= j < set_view(s@).len() && set_view(s@)[j] == x@;
            assert(s@[j]@ == x@);
        }
    }
    false
}

/// The key schema of a payload: its distinct key paths, sorted.
fn schema(v: &JsonValue, prefix: &str) -> (r: Vec<String>)
    ensures
        set_view(r@) == sorted_set(skeleton(*v, prefix@)),
{
    let mut all: Vec<String> = Vec::new();
    key_skeleton(v, prefix, &mut all);
    proof {
        assert(set_view(all@) =~= skeleton(*v, prefix@));
    }
    let r = sort_dedup(&all);
    proof {
        let t = sorted_set(skeleton(*v, prefix@));
        assert(strictly_sorted(set_view(r@)) && set_view(r@).to_set() == skeleton(*v, prefix@).to_set());
        lemma_strictly_sorted_unique(set_view(r@), t);
    }
    r
}

/// Append the differences of two sampled streams, and the note on their
/// counts (see [`sampled_spec`]).
pub fn diff_sampled_stream(
    label: &str,
    go: &[&JsonValue],
    rust: &[&JsonValue],
    stable_fields: &[&str],
    close: &CloseNumbers,
    out: &mut Vec<FieldDiff>,
    infos: &mut Vec<String>,
)
    ensures
        views(final(out)@) == views(old(out)@) + sampled_spec(
            label@,
            derefs(go@),
            derefs(rust@),
            stable_fields@.map_values(|f: &str| f@),
            *close,
        ).0,
        set_view(final(infos)@) == set_view(old(infos)@) + sampled_spec(
            label@,
            derefs(go@),
            derefs(rust@),
            stable_fields@.map_values(|f: &str| f@),
            *close,
        ).1,
{
    let ghost start = views(out@);
    let ghost istart = set_view(infos@);
    let ghost g = derefs(go@);
    let ghost r = derefs(rust@);
    let ghost fs = stable_fields@.map_values(|f: &str| f@);
    if (go.len() == 0) != (rust.len() == 0) {
        let d = FieldDiff {
            path: bracketed(label),
            go: events_count(go.len()),
            rust: events_count(rust.len()),
            note: "one side emitted this callback stream, the other did not",
        };
        push_diff(out, d);
        proof {
            assert(set_view(infos@) =~= istart + Seq::<Seq<char>>::empty());
        }
        return;
    }
    if go.len() == 0 {
        proof {
            assert(views(out@) =~= start + Seq::<DiffView>::empty());
            assert(set_view(infos@) =~= istart + Seq::<Seq<char>>::empty());
        }
        return;
    }
    let mut info = String::new();
    info.append(label);
    info.append(": go emitted ");
    push_dec(&mut info, go.len() as u64);
    info.append(", rust emitted ");
    push_dec(&mut info, rust.len() as u64);
    info.append(" (sampled \u{2014} count & intermediate values not compared)");
    let ghost ibefore = infos@;
    infos.push(info);
    proof {
        assert(info@ =~= sampled_info(label@, go@.len() as nat, rust@.len() as nat));
        assert(set_view(infos@) =~= istart + seq![info@]);
    }
    let gt = go[go.len() - 1];
    let rt = rust[rust.len() - 1];
    proof {
        assert(*gt == g.last());
        assert(*rt == r.last());
    }
    let prefix = bracketed(label);
    let gs = schema(gt, prefix.as_str());
    let rs = schema(rt, prefix.as_str());
    let ghost gsv = set_view(gs@);
    let ghost rsv = set_view(rs@);
    // Paths only on the go side.
    let mut i: usize = 0;
    proof {
        assert(views(out@) =~= start + Seq::<DiffView>::empty());
    }
    while i < gs.len()
        invariant
            0 <= i <= gs@.len(),
            gsv == set_view(gs@),
            rsv == set_view(rs@),
            views(out@) + only_in_go(gsv, rsv, i as int) == start + only_in_go(gsv, rsv, 0),
        decreases gs@.len() - i,
    {
        let ghost before = views(out@);
        if !has_text(&rs, gs[i].as_str()) {
            let d = FieldDiff {
                path: gs[i].clone(),
                go: owned("<present>"),
                rust: owned("<absent>"),
                note: "schema: key only in go",
            };
            push_diff(out, d);
        }
        proof {
            assert(gsv[i as int] == gs@[i as int]@);
            assert(views(out@) + only_in_go(gsv, rsv, i + 1) =~= before + only_in_go(gsv, rsv, i as int));
        }
        i = i + 1;
    }
    let ghost mid = views(out@);
    // Paths only on the rust side.
    let mut i: usize = 0;
    proof {
        assert(views(out@) =~= mid + Seq::<DiffView>::empty());
    }
    while i < rs.len()
        invariant
            0 <= i <= rs@.len(),
            gsv == set_view(gs@),
            rsv == set_view(rs@),
            views(out@) + only_in_rust(rsv, gsv, i as int) == mid + only_in_rust(rsv, gsv, 0),
        decreases rs@.len() - i,
    {
        let ghost before = views(out@);
        if !has_text(&gs, rs[i].as_str()) {
            let d = FieldDiff {
                path: rs[i].clone(),
                go: owned("<absent>"),
                rust: owned("<present>"),
                note: "schema: key only in rust",
            };
            push_diff(out, d);
        }
        proof {
            assert(rsv[i as int] == rs@[i as int]@);
            assert(views(out@) + only_in_rust(rsv, gsv, i + 1) =~= before + only_in_rust(rsv, gsv, i as int));
        }
        i = i + 1;
    }
    let ghost mid2 = views(out@);
    // The run-invariant fields.
    let mut i: usize = 0;
    proof {
        assert(views(out@) =~= mid2 + Seq::<DiffView>::empty());
    }
    while i < stable_fields.len()
        invariant
            0 <= i <= stable_fields@.len(),
            fs == stable_fields@.map_values(|f: &str| f@),
            prefix@ == bracket(label@),
            *gt == g.last(),
            *rt == r.last(),
            views(out@) + stable_diffs(label@, *gt, *rt, fs, i as int, *close) == mid2 + stable_diffs(
                label@,
                *gt,
                *rt,
                fs,
                0,
                *close,
            ),
        decreases stable_fields@.len() - i,
    {
        let ghost before = views(out@);
        let f = stable_fields[i];
        proof {
            assert(fs[i as int] == f@);
        }
        let p = child(prefix.as_str(), f);
        match (pointer(gt, f), pointer(rt, f)) {
            (Some(a), Some(b)) => {
                diff_value(p.as_str(), a, b, close, out);
            },
            (ga, rb) => {
                if ga.is_some() || rb.is_some() {
                    let d = FieldDiff {
                        path: p,
                        go: if ga.is_some() {
                            owned("<present>")
                        } else {
                            owned("<absent>")
                        },
                        rust: if rb.is_some() {
                            owned("<present>")
                        } else {
                            owned("<absent>")
                        },
                        note: "stable field present on only one side",
                    };
                    push_diff(out, d);
                }
            },
        }
        proof {
            assert(views(out@) + stable_diffs(label@, *gt, *rt, fs, i + 1, *close) =~= before + stable_diffs(
                label@,
                *gt,
                *rt,
                fs,
                i as int,
                *close,
            ));
        }
        i = i + 1;
    }
    proof {
        assert(views(out@) =~= start + sampled_spec(label@, g, r, fs, *close).0);
    }
}

/// The first `n` characters of `s`, or all of it when shorter.
pub open spec fn first_chars(s: Seq<char>, n: int) -> Seq<char> {
    if s.len() <= n {
        s
    } else {
        s.take(n)
    }
}

/// The textual differences of payload pairs from position `i` on (over the
/// shorter list) where either side did not parse and the texts differ.
pub open spec fn raw_diffs(go: Seq<Event>, rust: Seq<Event>, i: int) -> Seq<DiffView>
    decreases go.len() - i,
{
    if i < 0 || i >= go.len() || i >= rust.len() {
        Seq::empty()
    } else {
        let g = go[i];
        let r = rust[i];
        (if (g.value is None || r.value is None) && g.raw@ != r.raw@ {
            seq![DiffView {
                path: "[raw#"@ + dec(i as nat) + seq![']'],
                go: first_chars(g.raw@, 200),
                rust: first_chars(r.raw@, 200),
                note: "unparseable payload differs textually"@,
            }]
        } else {
            Seq::empty()
        }) + raw_diffs(go, rust, i + 1)
    }
}

/// The run-invariant fields of a progress payload.
pub open spec fn progress_stable_fields() -> Seq<Seq<char>> {
    seq!["totalFiles"@, "totalDirectories"@, "bulkFileSize/total"@]
}

/// The comparison of one step's captures: unparseable payloads textually,
/// the `done` stream exactly, the preprocess stream by presence and schema,
/// and the progress stream by presence, schema and its run-invariant fields.
pub open spec fn step_spec(go: Seq<Event>, rust: Seq<Event>, close: CloseNumbers) -> (Seq<DiffView>, Seq<Seq<char>>) {
    let done = exact_stream_spec(
        "done"@,
        partition_spec(go, CbKind::Done),
        partition_spec(rust, CbKind::Done),
        close,
    );
    let pre = sampled_spec(
        "preprocess"@,
        partition_spec(go, CbKind::Preprocess),
        partition_spec(rust, CbKind::Preprocess),
        Seq::empty(),
        close,
    );
    let prog = sampled_spec(
        "progress"@,
        partition_spec(go, CbKind::Progress),
        partition_spec(rust, CbKind::Progress),
        progress_stable_fields(),
        close,
    );
    (raw_diffs(go, rust, 0) + done + pre.0 + prog.0, pre.1 + prog.1)
}

/// The first `n` characters of `s` (see [`first_chars`]).
fn first_chars_exec(s: &str, n: usize) -> (r: String)
    ensures
        r@ == first_chars(s@, n as int),
{
    let c = str_chars(s);
    if c.len() <= n {
        return owned(s);
    }
    let mut out: Vec<char> = Vec::new();
    let mut i: usize = 0;
    while i < n
        invariant
            0 <= i <= n,
            n < c@.len(),
            out@ == c@.take(i as int),
        decreases n - i,
    {
        out.push(c[i]);
        i = i + 1;
        proof {
            assert(out@ =~= c@.take(i as int));
        }
    }
    string_of_chars(&out)
}

/// Compare one step's go capture with its rust capture (see [`step_spec`]):
/// the differences, and informational notes.
pub fn diff_step(go: &StepCapture, rust: &StepCapture, close: &CloseNumbers) -> (r: (Vec<FieldDiff>, Vec<String>))
    ensures
        views(r.0@) == step_spec(go.events@, rust.events@, *close).0,
        set_view(r.1@) == step_spec(go.events@, rust.events@, *close).1,
{
    let mut diffs: Vec<FieldDiff> = Vec::new();
    let mut infos: Vec<String> = Vec::new();
    let ge = &go.events;
    let re = &rust.events;
    let n = if ge.len() < re.len() {
        ge.len()
    } else {
        re.len()
    };
    let mut i: usize = 0;
    proof {
        assert(views(diffs@) =~= Seq::<DiffView>::empty());
    }
    while i < n
        invariant
            0 <= i <= n,
            n <= ge@.len(),
            n <= re@.len(),
            n == ge@.len() || n == re@.len(),
            views(diffs@) + raw_diffs(ge@, re@, i as int) == raw_diffs(ge@, re@, 0),
        decreases n - i,
    {
        let ghost before = views(diffs@);
        let g = &ge[i];
        let r = &re[i];
        if (g.value.is_none() || r.value.is_none()) && !str_eq(g.raw.as_str(), r.raw.as_str()) {
            let mut p = String::new();
            p.append("[raw#");
            push_dec(&mut p, i as u64);
            p.append("]");
            proof {
                reveal_strlit("]");
                assert(p@ =~= "[raw#"@ + dec(i as nat) + seq![']']);
            }
            let d = FieldDiff {
                path: p,
                go: first_chars_exec(g.raw.as_str(), 200),
                rust: first_chars_exec(r.raw.as_str(), 200),
                note: "unparseable payload differs textually",
            };
            push_diff(&mut diffs, d);
        }
        proof {
            assert(views(diffs@) + raw_diffs(ge@, re@, i + 1) =~= before + raw_diffs(ge@, re@, i as int));
        }
        i = i + 1;
    }
    proof {
        assert(views(diffs@) =~= raw_diffs(ge@, re@, 0));
        assert(set_view(infos@) =~= Seq::<Seq<char>>::empty());
    }
    let gd = partition(ge, CbKind::Done);
    let rd = partition(re, CbKind::Done);
    diff_exact_stream("done", gd.as_slice(), rd.as_slice(), close, &mut diffs);
    let gp = partition(ge, CbKind::Preprocess);
    let rp = partition(re, CbKind::Preprocess);
    let none: Vec<&str> = Vec::new();
    diff_sampled_stream("preprocess", gp.as_slice(), rp.as_slice(), none.as_slice(), close, &mut diffs, &mut infos);
    let gq = partition(ge, CbKind::Progress);
    let rq = partition(re, CbKind::Progress);
    let stable: Vec<&str> = vec!["totalFiles", "totalDirectories", "bulkFileSize/total"];
    proof {
        assert(none@.map_values(|f: &str| f@) =~= Seq::<Seq<char>>::empty());
        assert(stable@.map_values(|f: &str| f@) =~= progress_stable_fields());
    }
    diff_sampled_stream("progress", gq.as_slice(), rq.as_slice(), stable.as_slice(), close, &mut diffs, &mut infos);
    (diffs, infos)
}

/// The storage id a FetchStorages capture reports: the `Sid` of the first
/// entry of the `data` array of the first event's payload, when it is a
/// non-negative integer, cut to its low 32 bits.
pub open spec fn extract_sid_spec(events: Seq<Event>) -> Option<u32> {
    if events.len() == 0 || events[0].value is None {
        None
    } else {
        match lookup(events[0].value->0, seq!["data"@]) {
            Some(JsonValue::Array(a)) => if a@.len() == 0 {
                None
            } else {
                match lookup(a@[0], seq!["Sid"@]) {
                    Some(JsonValue::Number(JsonNumber::PosInt(n))) => Some(n as u32),
                    _ => None,
                }
            },
            _ => None,
        }
    }
}

/// The storage id a FetchStorages capture reports (see [`extract_sid_spec`]).
pub fn extract_sid(events: &[Event]) -> (r: Option<u32>)
    ensures
        r == extract_sid_spec(events@),
{
    proof {
        reveal_strlit("data");
        reveal_strlit("Sid");
    }
    if events.len() == 0 {
        return None;
    }
    let v = match &events[0].value {
        Some(v) => v,
        None => return None,
    };
    proof {
        lemma_split_plain("data"@, Seq::empty());
        lemma_split_plain("Sid"@, Seq::empty());
        assert(Seq::<char>::empty() + "data"@ =~= "data"@);
        assert(Seq::<char>::empty() + "Sid"@ =~= "Sid"@);
    }
    match pointer(v, "data") {
        Some(JsonValue::Array(a)) => {
            if a.len() == 0 {
                return None;
            }
            match pointer(&a[0], "Sid") {
                Some(JsonValue::Number(JsonNumber::PosInt(n))) => Some(#[verifier::truncate] (*n as u32)),
                _ => None,
            }
        },
        _ => None,
    }
}

/// `new` is `old` with the value under every volatile key, at any depth,
/// replaced by `null`; everything else is kept.
pub open spec fn normalized_from(new: JsonValue, old: JsonValue) -> bool
    decreases old, 0int,
{
    match old {
        JsonValue::Object(m) => match new {
            JsonValue::Object(n) => n@.len() == m@.len() && entries_normalized(n@, m@, 0),
            _ => false,
        },
        JsonValue::Array(a) => match new {
            JsonValue::Array(b) => b@.len() == a@.len() && items_normalized(b@, a@, 0),
            _ => false,
        },
        _ => new == old,
    }
}

/// The entries from position `i` on keep their keys, and their values are
/// `null` under a volatile key and normalized otherwise.
pub open spec fn entries_normalized(n: Seq<(String, JsonValue)>, m: Seq<(String, JsonValue)>, i: int) -> bool
    decreases m, m.len() - i,
{
    if i < 0 || i >= m.len() || i >= n.len() {
        true
    } else {
        &&& n[i].0@ == m[i].0@
        &&& if crate::conformance::volatile_key(m[i].0@) {
            n[i].1 is Null
        } else {
            normalized_from(n[i].1, m[i].1)
        }
        &&& entries_normalized(n, m, i + 1)
    }
}

/// The elements from position `i` on are normalized.
pub open spec fn items_normalized(b: Seq<JsonValue>, a: Seq<JsonValue>, i: int) -> bool
    decreases a, a.len() - i,
{
    if i < 0 || i >= a.len() || i >= b.len() {
        true
    } else {
        normalized_from(b[i], a[i]) && items_normalized(b, a, i + 1)
    }
}

/// `v` with the value under every volatile key, at any depth, replaced by
/// `null` (see [`normalized_from`]).
pub fn normalized(v: JsonValue) -> (r: JsonValue)
    ensures
        normalized_from(r, v),
    decreases v,
{
    let ghost gv = v;
    match v {
        JsonValue::Object(m) => {
            let ghost m0 = m;
            let mut m = m;
            let mut out: Vec<(String, JsonValue)> = Vec::new();
            while m.len() > 0
                invariant
                    gv == v,
                    gv == JsonValue::Object(m0),
                    out@.len() + m@.len() == m0@.len(),
                    m@ == m0@.skip(out@.len() as int),
                    forall|j: int|
                        0 <= j < out@.len() ==> (#[trigger] out@[j]).0@ == m0@[j].0@ && (if crate::conformance::volatile_key(
                            m0@[j].0@,
                        ) {
                            out@[j].1 is Null
                        } else {
                            normalized_from(out@[j].1, m0@[j].1)
                        }),
                decreases m@.len(),
            {
                let ghost i = out@.len() as int;
                proof {
                    assert(m@[0] == m0@[i]);
                }
                let (k, val) = m.remove(0);
                proof {
                    assert(val == m0@[i].1);
                }
                let nv = if crate::conformance::is_volatile_key(k.as_str()) {
                    JsonValue::Null
                } else {
                    proof {
                        assert(decreases_to!(m0@[i] => m0@[i].1));
                        assert(decreases_to!(m0@ => m0@[i]));
                        assert(decreases_to!(m0 => m0@));
                        assert(decreases_to!(gv => gv->Object_0));
                    }
                    normalized(val)
                };
                out.push((k, nv));
                proof {
                    assert(m@ =~= m0@.skip(out@.len() as int));
                }
            }
            proof {
                lemma_entries_normalized(out@, m0@, 0);
            }
            JsonValue::Object(out)
        },
        JsonValue::Array(a) => {
            let ghost a0 = a;
            let mut a = a;
            let mut out: Vec<JsonValue> = Vec::new();
            while a.len() > 0
                invariant
                    gv == v,
                    gv == JsonValue::Array(a0),
                    out@.len() + a@.len() == a0@.len(),
                    a@ == a0@.skip(out@.len() as int),
                    forall|j: int| 0 <= j < out@.len() ==> normalized_from(#[trigger] out@[j], a0@[j]),
                decreases a@.len(),
            {
                let ghost i = out@.len() as int;
                proof {
                    assert(a@[0] == a0@[i]);
                }
                let x = a.remove(0);
                proof {
                    assert(x == a0@[i]);
                }
                proof {
                    assert(decreases_to!(a0@ => a0@[i]));
                    assert(decreases_to!(a0 => a0@));
                    assert(decreases_to!(gv => gv->Array_0));
                }
                let nx = normalized(x);
                out.push(nx);
                proof {
                    assert(a@ =~= a0@.skip(out@.len() as int));
                }
            }
            proof {
                lemma_items_normalized(out@, a0@, 0);
            }
            JsonValue::Array(out)
        },
        other => other,
    }
}

/// Entry-wise normalization gives [`entries_normalized`].
proof fn lemma_entries_normalized(n: Seq<(String, JsonValue)>, m: Seq<(String, JsonValue)>, i: int)
    requires
        0 <= i,
        n.len() == m.len(),
        forall|j: int|
            0 <= j < n.len() ==> (#[trigger] n[j]).0@ == m[j].0@ && (if crate::conformance::volatile_key(m[j].0@) {
                n[j].1 is Null
            } else {
                normalized_from(n[j].1, m[j].1)
            }),
    ensures
        entries_normalized(n, m, i),
    decreases m.len() - i,
{
    if i < m.len() {
        lemma_entries_normalized(n, m, i + 1);
        assert(n[i].0@ == m[i].0@);
    }
}

/// Element-wise normalization gives [`items_normalized`].
proof fn lemma_items_normalized(b: Seq<JsonValue>, a: Seq<JsonValue>, i: int)
    requires
        0 <= i,
        b.len() == a.len(),
        forall|j: int| 0 <= j < b.len() ==> normalized_from(#[trigger] b[j], a[j]),
    ensures
        items_normalized(b, a, i),
    decreases a.len() - i,
{
    if i < a.len() {
        lemma_items_normalized(b, a, i + 1);
        assert(normalized_from(b[i], a[i]));
    }
}

/// Replace the value under every volatile key, at any depth, by `null`.
pub fn normalize(v: &mut JsonValue)
    ensures
        normalized_from(*final(v), *old(v)),
{
    let mut t = JsonValue::Null;
    std::mem::swap(&mut t, v);
    *v = normalized(t);
}

/// Every non-integer number in `v` is judged close to itself.
pub open spec fn self_close(v: JsonValue, close: CloseNumbers) -> bool
    decreases v, 0int,
{
    match v {
        JsonValue::Number(JsonNumber::Float(t)) => close.holds(t@, t@),
        JsonValue::Array(a) => items_self_close(a@, 0, close),
        JsonValue::Object(m) => entries_self_close(m@, 0, close),
        _ => true,
    }
}

/// [`self_close`] for the elements from position `i` on.
pub open spec fn items_self_close(a: Seq<JsonValue>, i: int, close: CloseNumbers) -> bool
    decreases a, a.len() - i,
{
    if i < 0 || i >= a.len() {
        true
    } else {
        self_close(a[i], close) && items_self_close(a, i + 1, close)
    }
}

/// [`self_close`] for the entry values from position `i` on.
pub open spec fn entries_self_close(m: Seq<(String, JsonValue)>, i: int, close: CloseNumbers) -> bool
    decreases m, m.len() - i,
{
    if i < 0 || i >= m.len() {
        true
    } else {
        self_close(m[i].1, close) && entries_self_close(m, i + 1, close)
    }
}

/// A value compared with itself shows no difference, provided each of its
/// non-integer numbers is judged close to itself.
pub proof fn lemma_diff_self_empty(path: Seq<char>, v: JsonValue, close: CloseNumbers)
    requires
        self_close(v, close),
    ensures
        diff_spec(path, v, v, close) == Seq::<DiffView>::empty(),
    decreases v, 0int,
{
    match v {
        JsonValue::Object(m) => {
            lemma_entries_self_empty(path, m@, union_keys(m@, m@), close);
        },
        JsonValue::Array(a) => {
            lemma_items_self_empty(path, a@, 0, close);
        },
        _ => {},
    }
}

/// [`entries_self_close`] from 0 gives it at every position.
proof fn lemma_entries_self_close_at(m: Seq<(String, JsonValue)>, i: int, j: int, close: CloseNumbers)
    requires
        0 <= i <= j < m.len(),
        entries_self_close(m, i, close),
    ensures
        self_close(m[j].1, close),
    decreases j - i,
{
    if i < j {
        lemma_entries_self_close_at(m, i + 1, j, close);
    }
}

/// The keys of an object compared with itself show no difference.
proof fn lemma_entries_self_empty(
    path: Seq<char>,
    m: Seq<(String, JsonValue)>,
    keys: Seq<Seq<char>>,
    close: CloseNumbers,
)
    requires
        entries_self_close(m, 0, close),
    ensures
        diff_entries(path, m, m, keys, close) == Seq::<DiffView>::empty(),
    decreases m, keys.len(),
{
    if keys.len() > 0 {
        let k = keys[0];
        let i = find_key(m, k);
        lemma_find_key(m, k);
        if i >= 0 {
            lemma_entries_self_close_at(m, 0, i, close);
            assert(decreases_to!(m => m[i]));
            assert(decreases_to!(m[i] => m[i].1));
            lemma_diff_self_empty(child_path(path, k), m[i].1, close);
        }
        lemma_entries_self_empty(path, m, keys.drop_first(), close);
        assert(diff_entries(path, m, m, keys, close) =~= Seq::<DiffView>::empty());
    }
}

/// The elements of an array compared with themselves from position `i` on
/// show no difference.
proof fn lemma_items_self_empty(path: Seq<char>, a: Seq<JsonValue>, i: int, close: CloseNumbers)
    requires
        0 <= i,
        items_self_close(a, i, close),
    ensures
        diff_items(path, a, a, i, close) == Seq::<DiffView>::empty(),
    decreases a, a.len() - i,
{
    if i < a.len() {
        assert(decreases_to!(a => a[i]));
        lemma_diff_self_empty(child_path(path, dec(i as nat)), a[i], close);
        lemma_items_self_empty(path, a, i + 1, close);
        assert(diff_items(path, a, a, i, close) =~= Seq::<DiffView>::empty());
    }
}

} // verus!
