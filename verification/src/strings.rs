//! Small std string/char operations the library builds on, with their
//! documented behaviour as contracts.
use vstd::prelude::*;
use vstd::std_specs::iter::IteratorSpec;

verus! {

/// `String::push`: appends one `char`.
#[verifier::external_body]
pub(crate) fn push_char(s: &mut String, c: char)
    ensures
        final(s)@ == old(s)@.push(c),
{
    s.push(c)
}

/// `char::from_u32`: `Some` exactly for Unicode scalar values.
#[verifier::external_body]
pub(crate) fn char_from_u32(v: u32) -> (res: Option<char>)
    ensures
        vstd::utf8::is_scalar(v) ==> res == Some(v as char),
        !vstd::utf8::is_scalar(v) ==> res is None,
{
    char::from_u32(v)
}

/// The characters of `s`, in order.
pub(crate) fn str_chars(s: &str) -> (v: Vec<char>)
    ensures
        v@ == s@,
{
    let mut v: Vec<char> = Vec::new();
    let mut it = s.chars();
    broadcast use vstd::string::axiom_spec_iter;
    loop
        invariant
            it.remaining() == s@.skip(v@.len() as int),
            v@ == s@.take(v@.len() as int),
            v@.len() <= s@.len(),
        ensures
            v@ == s@,
        decreases s@.len() - v@.len(),
    {
        match it.next() {
            Some(c) => {
                proof {
                    assert(s@.skip(v@.len() as int)[0] == c);
                }
                v.push(c);
                proof {
                    assert(v@ =~= s@.take(v@.len() as int));
                    assert(it.remaining() =~= s@.skip(v@.len() as int));
                }
            },
            None => {
                proof {
                    assert(v@ =~= s@);
                }
                break;
            },
        }
    }
    v
}

/// The string made of the characters of `v`.
pub(crate) fn string_of_chars(v: &Vec<char>) -> (s: String)
    ensures
        s@ == v@,
{
    let mut s = String::new();
    let mut i: usize = 0;
    while i < v.len()
        invariant
            0 <= i <= v@.len(),
            s@ == v@.take(i as int),
        decreases v@.len() - i,
    {
        push_char(&mut s, v[i]);
        i = i + 1;
        proof {
            assert(s@ =~= v@.take(i as int));
        }
    }
    proof {
        assert(v@.take(v@.len() as int) =~= v@);
    }
    s
}

/// Whether `sub` occurs in `s` at position `i`.
pub open spec fn occurs_at(s: Seq<char>, sub: Seq<char>, i: int) -> bool {
    0 <= i && i + sub.len() <= s.len() && s.subrange(i, i + sub.len()) == sub
}

/// Whether `sub` occurs anywhere in `s`.
pub open spec fn contains_seq(s: Seq<char>, sub: Seq<char>) -> bool {
    exists|i: int| #[trigger] occurs_at(s, sub, i)
}

/// Whether `a` and `b` agree on `len` characters from `i` and `0`.
fn matches_at(a: &Vec<char>, b: &Vec<char>, i: usize) -> (r: bool)
    requires
        i + b@.len() <= a@.len(),
    ensures
        r == (a@.subrange(i as int, i + b@.len()) == b@),
{
    let alen = a.len();
    let mut k: usize = 0;
    while k < b.len()
        invariant
            0 <= k <= b@.len(),
            alen == a@.len(),
            i + b@.len() <= a@.len(),
            a@.subrange(i as int, i + k) == b@.take(k as int),
        decreases b@.len() - k,
    {
        if a[i + k] != b[k] {
            proof {
                assert(a@.subrange(i as int, i + b@.len())[k as int] != b@[k as int]);
            }
            return false;
        }
        k = k + 1;
        proof {
            assert(a@.subrange(i as int, i + k) =~= b@.take(k as int));
        }
    }
    proof {
        assert(b@.take(b@.len() as int) =~= b@);
    }
    true
}

/// Whether `sub` occurs in `s`.
pub(crate) fn str_contains(s: &str, sub: &str) -> (r: bool)
    ensures
        r == contains_seq(s@, sub@),
{
    let a = str_chars(s);
    let b = str_chars(sub);
    if b.len() > a.len() {
        proof {
            assert forall|i: int| !occurs_at(s@, sub@, i) by {}
        }
        return false;
    }
    if b.len() == 0 {
        proof {
            assert(s@.subrange(0, 0) =~= sub@);
            assert(occurs_at(s@, sub@, 0));
        }
        return true;
    }
    let alen = a.len();
    let last = a.len() - b.len();
    let mut i: usize = 0;
    while i <= last
        invariant
            alen == a@.len(),
            last + b@.len() == a@.len(),
            b@.len() >= 1,
            i <= last + 1,
            a@ == s@,
            b@ == sub@,
            forall|j: int| 0 <= j < i ==> !#[trigger] occurs_at(s@, sub@, j),
        decreases last + 1 - i,
    {
        if matches_at(&a, &b, i) {
            proof {
                assert(occurs_at(s@, sub@, i as int));
            }
            return true;
        }
        i = i + 1;
    }
    proof {
        assert forall|j: int| !occurs_at(s@, sub@, j) by {
            if 0 <= j && j + sub@.len() <= s@.len() {
                assert(j <= last);
            }
        }
    }
    false
}

/// Whether two strings are equal.
pub(crate) fn str_eq(a: &str, b: &str) -> (r: bool)
    ensures
        r == (a@ == b@),
{
    let x = str_chars(a);
    let y = str_chars(b);
    if x.len() != y.len() {
        return false;
    }
    let r = matches_at(&x, &y, 0);
    proof {
        assert(x@.subrange(0, y@.len() as int) =~= x@);
    }
    r
}

} // verus!
