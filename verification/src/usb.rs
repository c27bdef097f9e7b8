//! The decisions of USB discovery: which devices are worth opening, which
//! interface has the MTP endpoint shape, how open failures fold into one
//! error, how an exclusive owner's name is cleaned, and how IN transfers are
//! sized. The enumeration and the transfers themselves are I/O.
use vstd::prelude::*;
use vstd::string::StringExecFns;
use crate::decimal::{dec, push_dec};
use crate::strings::{contains_seq, str_chars, str_contains, string_of_chars};

pub use crate::mtp::UsbInfo;

verus! {

/// Discovery failures.
#[derive(Clone, Debug, PartialEq, Eq)]
pub enum DiscoverError {
    /// No MTP device was found.
    NoDevice,
    /// More than one MTP device was found; carries the count.
    MultipleDevices(usize),
    /// Another process holds the device; its name, when known.
    ExclusiveAccess { owner: Option<String> },
    /// The system denied access to the device; carries guidance.
    Access(String),
    /// Anything else, with its description.
    Other(String),
}

/// The text of a discovery error.
pub open spec fn discover_error_text(e: DiscoverError) -> Seq<char> {
    match e {
        DiscoverError::NoDevice => "no MTP devices found"@,
        DiscoverError::MultipleDevices(n) => "mtp: more than 1 device: found "@ + dec(n as nat)
            + " MTP candidates"@,
        DiscoverError::ExclusiveAccess { owner } => match owner {
            Some(who) => "device is held exclusively by another process ("@ + who@
                + "); quit it and try again"@,
            None => "device is held exclusively by another process; quit Image Capture, Photos, or any phone-sync app and try again"@,
        },
        DiscoverError::Access(m) => m@,
        DiscoverError::Other(m) => m@,
    }
}

impl DiscoverError {
    /// The error's message text.
    pub fn to_string(&self) -> (s: String)
        ensures
            s@ == discover_error_text(*self),
    {
        match self {
            DiscoverError::NoDevice => "no MTP devices found".to_owned(),
            DiscoverError::MultipleDevices(n) => {
                let mut s = "mtp: more than 1 device: found ".to_owned();
                push_dec(&mut s, *n as u64);
                s.append(" MTP candidates");
                s
            },
            DiscoverError::ExclusiveAccess { owner } => match owner {
                Some(who) => {
                    let mut s = "device is held exclusively by another process (".to_owned();
                    s.append(who.as_str());
                    s.append("); quit it and try again");
                    s
                },
                None => "device is held exclusively by another process; quit Image Capture, Photos, or any phone-sync app and try again".to_owned(),
            },
            DiscoverError::Access(m) => m.clone(),
            DiscoverError::Other(m) => m.clone(),
        }
    }
}

/// How opening or claiming one candidate device failed.
#[derive(Clone, Debug, PartialEq, Eq)]
pub enum OpenError {
    /// Another process holds the device; its name, when known.
    Exclusive { owner: Option<String> },
    /// The system would not create a user client for the device.
    PlugIn(String),
    /// The device left the bus during the scan.
    Gone,
    /// Anything else, with its description.
    Other(String),
}

/// The kind of a failure to open or claim a device, as the host stack
/// reports it.
#[derive(Clone, Copy, Debug, PartialEq, Eq)]
pub enum OpenFailureKind {
    /// Another process holds the device.
    Busy,
    /// The device left the bus.
    Disconnected,
    /// The device, or its interface, is no longer there.
    NotFound,
    /// Anything else.
    Other,
}

/// How a failure to open or claim a candidate is classified: a busy device
/// is held exclusively (by `owner`, when known); a vanished one is gone;
/// otherwise a message naming the IOKit `PlugInInterface` is a user-client
/// denial, and anything else keeps its message.
pub fn classify_open_failure(kind: OpenFailureKind, message: String, owner: Option<String>) -> (e: OpenError)
    ensures
        match kind {
            OpenFailureKind::Busy => e == OpenError::Exclusive { owner },
            OpenFailureKind::Disconnected | OpenFailureKind::NotFound => e == OpenError::Gone,
            OpenFailureKind::Other => if contains_seq(message@, "PlugInInterface"@) {
                e == OpenError::PlugIn(message)
            } else {
                e == OpenError::Other(message)
            },
        },
{
    match kind {
        OpenFailureKind::Busy => OpenError::Exclusive { owner },
        OpenFailureKind::Disconnected | OpenFailureKind::NotFound => OpenError::Gone,
        OpenFailureKind::Other => {
            if str_contains(message.as_str(), "PlugInInterface") {
                OpenError::PlugIn(message)
            } else {
                OpenError::Other(message)
            }
        },
    }
}

/// The failures remembered over a scan, reported only if no device opened.
#[derive(Clone, Debug, PartialEq, Eq)]
pub struct Blockers {
    /// The exclusive-access failure kept so far; a named owner is preferred
    /// over an unnamed one, else the first is kept.
    pub exclusive: Option<Option<String>>,
    /// The first user-client denial.
    pub plugin: Option<String>,
    /// The first other failure.
    pub other: Option<String>,
}

/// The guidance shown for a user-client denial, around the system's message.
pub open spec fn plugin_guidance_text(raw: Seq<char>) -> Seq<char> {
    "macOS denied USB access to this device ("@ + raw
        + "). Launch Ferry as a signed app (not from a bare terminal) and, if it persists, reconnect the device."@
}

/// Turn the system's user-client denial message into guidance.
pub fn plugin_guidance(raw: &str) -> (s: String)
    ensures
        s@ == plugin_guidance_text(raw@),
{
    let mut s = "macOS denied USB access to this device (".to_owned();
    s.append(raw);
    s.append(
        "). Launch Ferry as a signed app (not from a bare terminal) and, if it persists, reconnect the device.",
    );
    s
}

impl Blockers {
    /// Nothing remembered yet.
    pub fn new() -> (b: Blockers)
        ensures
            b.exclusive is None,
            b.plugin is None,
            b.other is None,
    {
        Blockers { exclusive: None, plugin: None, other: None }
    }

    /// Remember one failure.
    pub fn record(&mut self, e: OpenError)
        ensures
            match e {
                OpenError::Exclusive { owner } => final(self).exclusive == (if (old(self).exclusive matches Some(
                    Some(_),
                )) {
                    old(self).exclusive
                } else {
                    Some(owner)
                }) && final(self).plugin == old(self).plugin && final(self).other == old(self).other,
                OpenError::PlugIn(m) => final(self).plugin == (if old(self).plugin is Some {
                    old(self).plugin
                } else {
                    Some(m)
                }) && final(self).exclusive == old(self).exclusive && final(self).other == old(self).other,
                OpenError::Gone => *final(self) == *old(self),
                OpenError::Other(m) => final(self).other == (if old(self).other is Some {
                    old(self).other
                } else {
                    Some(m)
                }) && final(self).exclusive == old(self).exclusive && final(self).plugin == old(self).plugin,
            },
    {
        match e {
            OpenError::Exclusive { owner } => {
                let named = match &self.exclusive {
                    Some(Some(_)) => true,
                    _ => false,
                };
                if !named {
                    self.exclusive = Some(owner);
                }
            },
            OpenError::PlugIn(m) => {
                if self.plugin.is_none() {
                    self.plugin = Some(m);
                }
            },
            OpenError::Gone => {},
            OpenError::Other(m) => {
                if self.other.is_none() {
                    self.other = Some(m);
                }
            },
        }
    }

    /// The outcome of a scan that opened `found` devices: success for
    /// exactly one; for none, the remembered exclusive-access failure, else
    /// the user-client denial (as guidance), else the other failure, else "no
    /// device"; for more, the count.
    pub fn outcome(&self, found: usize) -> (r: Result<(), DiscoverError>)
        ensures
            found == 1 ==> r is Ok,
            found > 1 ==> r == Err::<(), DiscoverError>(DiscoverError::MultipleDevices(found)),
            found == 0 ==> (r matches Err(e) && match (self.exclusive, self.plugin, self.other) {
                (Some(owner), _, _) => e == DiscoverError::ExclusiveAccess { owner },
                (None, Some(p), _) => e matches DiscoverError::Access(g) && g@ == plugin_guidance_text(p@),
                (None, None, Some(o)) => e == DiscoverError::Other(o),
                (None, None, None) => e == DiscoverError::NoDevice,
            }),
    {
        if found == 1 {
            return Ok(());
        }
        if found > 1 {
            return Err(DiscoverError::MultipleDevices(found));
        }
        match &self.exclusive {
            Some(owner) => return Err(DiscoverError::ExclusiveAccess { owner: owner.clone() }),
            None => {},
        }
        match &self.plugin {
            Some(p) => return Err(DiscoverError::Access(plugin_guidance(p.as_str()))),
            None => {},
        }
        match &self.other {
            Some(o) => Err(DiscoverError::Other(o.clone())),
            None => Err(DiscoverError::NoDevice),
        }
    }
}

/// `size` rounded up to a non-zero multiple of `mps` (at least 1 when `mps`
/// is zero): IN transfer buffers must be whole packets.
pub fn align_to_packet_size(size: usize, mps: usize) -> (r: usize)
    requires
        mps == 0 || size == 0 || size % mps == 0 || (size / mps + 1) * mps <= usize::MAX,
    ensures
        mps == 0 ==> r == (if size < 1 { 1 } else { size }),
        mps > 0 && size == 0 ==> r == mps,
        mps > 0 && size > 0 ==> r % mps == 0 && size <= r < size + mps,
{
    if mps == 0 {
        return if size < 1 { 1 } else { size };
    }
    if size == 0 {
        return mps;
    }
    if size % mps == 0 {
        size
    } else {
        assert((size / mps) as int + 1 <= usize::MAX) by (nonlinear_arith)
            requires
                mps >= 1,
                ((size / mps) as int + 1) * mps <= usize::MAX,
        ;
        let q = size / mps + 1;
        proof {
            let r = size as int % mps as int;
            vstd::arithmetic::div_mod::lemma_fundamental_div_mod(size as int, mps as int);
            vstd::arithmetic::div_mod::lemma_mod_bound(size as int, mps as int);
            assert(mps * (size / mps) + r == size);
            assert(q * mps == mps * (size / mps) + mps) by (nonlinear_arith)
                requires
                    q == size / mps + 1,
            ;
            assert(0 < r < mps);
            assert(q * mps == size - r + mps);
            vstd::arithmetic::div_mod::lemma_mod_multiples_basic(q as int, mps as int);
        }
        q * mps
    }
}

/// Whether `c` is Unicode white space (what `char::is_whitespace` tests).
pub open spec fn is_space(c: char) -> bool {
    let v = c as u32;
    (0x09 <= v <= 0x0D) || v == 0x20 || v == 0x85 || v == 0xA0 || v == 0x1680 || (0x2000 <= v
        <= 0x200A) || v == 0x2028 || v == 0x2029 || v == 0x202F || v == 0x205F || v == 0x3000
}

/// `s` without leading white space.
pub open spec fn trim_start_spec(s: Seq<char>) -> Seq<char>
    decreases s.len(),
{
    if s.len() > 0 && is_space(s[0]) {
        trim_start_spec(s.drop_first())
    } else {
        s
    }
}

/// `s` without trailing white space.
pub open spec fn trim_end_spec(s: Seq<char>) -> Seq<char>
    decreases s.len(),
{
    if s.len() > 0 && is_space(s.last()) {
        trim_end_spec(s.drop_last())
    } else {
        s
    }
}

/// `s` without white space at either end.
pub open spec fn trim_spec(s: Seq<char>) -> Seq<char> {
    trim_end_spec(trim_start_spec(s))
}

fn is_space_exec(c: char) -> (b: bool)
    ensures
        b == is_space(c),
{
    let v = c as u32;
    (0x09 <= v && v <= 0x0D) || v == 0x20 || v == 0x85 || v == 0xA0 || v == 0x1680 || (0x2000 <= v
        && v <= 0x200A) || v == 0x2028 || v == 0x2029 || v == 0x202F || v == 0x205F || v == 0x3000
}

proof fn lemma_trim_start_skip(s: Seq<char>, i: int)
    requires
        0 <= i <= s.len(),
        forall|k: int| 0 <= k < i ==> is_space(#[trigger] s[k]),
    ensures
        trim_start_spec(s) == trim_start_spec(s.skip(i)),
    decreases i,
{
    if i > 0 {
        assert(s.drop_first().skip(i - 1) =~= s.skip(i));
        lemma_trim_start_skip(s.drop_first(), i - 1);
    } else {
        assert(s.skip(0) =~= s);
    }
}

proof fn lemma_trim_end_take(s: Seq<char>, j: int)
    requires
        0 <= j <= s.len(),
        forall|k: int| j <= k < s.len() ==> is_space(#[trigger] s[k]),
    ensures
        trim_end_spec(s) == trim_end_spec(s.take(j)),
    decreases s.len() - j,
{
    if j < s.len() {
        assert(s.drop_last().take(j) =~= s.take(j));
        lemma_trim_end_take(s.drop_last(), j);
    } else {
        assert(s.take(j) =~= s);
    }
}

/// The characters of `v[lo..hi]` without white space at either end.
fn trim_range(v: &Vec<char>, lo: usize, hi: usize) -> (r: Vec<char>)
    requires
        lo <= hi <= v@.len(),
    ensures
        r@ == trim_spec(v@.subrange(lo as int, hi as int)),
{
    let ghost s = v@.subrange(lo as int, hi as int);
    let mut a = lo;
    while a < hi && is_space_exec(v[a])
        invariant
            lo <= a <= hi <= v@.len(),
            s == v@.subrange(lo as int, hi as int),
            forall|k: int| 0 <= k < a - lo ==> is_space(#[trigger] s[k]),
        decreases hi - a,
    {
        a = a + 1;
    }
    proof {
        lemma_trim_start_skip(s, a - lo);
        assert(s.skip(a - lo) =~= v@.subrange(a as int, hi as int));
        if a < hi {
            assert(!is_space(v@.subrange(a as int, hi as int)[0]));
        }
    }
    let ghost t = v@.subrange(a as int, hi as int);
    let mut b = hi;
    while b > a && is_space_exec(v[b - 1])
        invariant
            lo <= a <= b <= hi <= v@.len(),
            t == v@.subrange(a as int, hi as int),
            forall|k: int| b - a <= k < t.len() ==> is_space(#[trigger] t[k]),
        decreases b - a,
    {
        b = b - 1;
    }
    proof {
        lemma_trim_end_take(t, b - a);
        assert(t.take(b - a) =~= v@.subrange(a as int, b as int));
    }
    let mut r: Vec<char> = Vec::new();
    let mut i = a;
    while i < b
        invariant
            a <= i <= b <= v@.len(),
            r@ == v@.subrange(a as int, i as int),
        decreases b - i,
    {
        r.push(v[i]);
        i = i + 1;
        proof {
            assert(r@ =~= v@.subrange(a as int, i as int));
        }
    }
    r
}

/// The last position at or before `k` where `p` occurs in `s`.
pub open spec fn rfind_from(s: Seq<char>, p: Seq<char>, k: int) -> Option<int>
    decreases k + 1,
{
    if k < 0 {
        None
    } else if crate::strings::occurs_at(s, p, k) {
        Some(k)
    } else {
        rfind_from(s, p, k - 1)
    }
}

/// The last position where `p` occurs in `s`.
pub open spec fn rfind(s: Seq<char>, p: Seq<char>) -> Option<int> {
    rfind_from(s, p, s.len() - p.len())
}

/// The name a raw exclusive-owner string gives: trimmed; for the
/// `pid <n>, <name>` form (split at the last `, `), just the trimmed name;
/// `None` when nothing is left.
pub open spec fn clean_owner_spec(raw: Seq<char>) -> Option<Seq<char>> {
    let t = trim_spec(raw);
    if t.len() == 0 {
        None
    } else {
        match rfind(t, seq![',', ' ']) {
            Some(i) => {
                let name = trim_spec(t.skip(i + 2));
                let prefix = trim_start_spec(t.take(i));
                if prefix.len() >= 4 && prefix.take(4) == seq!['p', 'i', 'd', ' '] && name.len() > 0 {
                    Some(name)
                } else {
                    Some(t)
                }
            },
            None => Some(t),
        }
    }
}

/// Clean a raw exclusive-owner string (see [`clean_owner_spec`]).
pub fn clean_owner(raw: &str) -> (r: Option<String>)
    ensures
        match (r, clean_owner_spec(raw@)) {
            (Some(s), Some(c)) => s@ == c,
            (None, None) => true,
            _ => false,
        },
{
    let all = str_chars(raw);
    let t = trim_range(&all, 0, all.len());
    proof {
        assert(all@.subrange(0, all@.len() as int) =~= raw@);
    }
    if t.len() == 0 {
        return None;
    }
    let mut found: Option<usize> = None;
    let mut k: usize = t.len() - 1;
    while k > 0 && found.is_none()
        invariant
            t@.len() >= 1,
            k <= t@.len() - 1,
            found is None ==> rfind(t@, seq![',', ' ']) == rfind_from(t@, seq![',', ' '], k - 1),
            found matches Some(j) ==> rfind(t@, seq![',', ' ']) == Some(j as int) && j + 2 <= t@.len(),
        decreases k + (if found is None { 1int } else { 0int }),
    {
        if t[k - 1] == ',' && t[k] == ' ' {
            proof {
                assert(t@.subrange(k - 1, k + 1) =~= seq![',', ' ']);
            }
            found = Some(k - 1);
        } else {
            proof {
                assert(!crate::strings::occurs_at(t@, seq![',', ' '], k - 1)) by {
                    if t@.subrange(k - 1, k + 1) == seq![',', ' '] {
                        assert(t@.subrange(k - 1, k + 1)[0] == t@[k - 1]);
                        assert(t@.subrange(k - 1, k + 1)[1] == t@[k as int]);
                    }
                }
            }
            k = k - 1;
        }
    }
    match found {
        Some(i) => {
            let name = trim_range(&t, i + 2, t.len());
            let prefix = trim_start_range(&t, 0, i);
            proof {
                assert(t@.subrange(i + 2, t@.len() as int) =~= t@.skip(i + 2));
                assert(t@.subrange(0, i as int) =~= t@.take(i as int));
            }
            if prefix.len() >= 4 && prefix[0] == 'p' && prefix[1] == 'i' && prefix[2] == 'd' && prefix[3] == ' '
                && name.len() > 0 {
                proof {
                    assert(prefix@.take(4) =~= seq!['p', 'i', 'd', ' ']);
                }
                Some(string_of_chars(&name))
            } else {
                proof {
                    if prefix@.len() >= 4 && prefix@.take(4) == seq!['p', 'i', 'd', ' '] {
                        assert(prefix@.take(4)[0] == prefix@[0]);
                        assert(prefix@.take(4)[1] == prefix@[1]);
                        assert(prefix@.take(4)[2] == prefix@[2]);
                        assert(prefix@.take(4)[3] == prefix@[3]);
                    }
                }
                Some(string_of_chars(&t))
            }
        },
        None => {
            proof {
                assert(rfind_from(t@, seq![',', ' '], -1) is None);
            }
            Some(string_of_chars(&t))
        },
    }
}

/// The characters of `v[lo..hi]` without leading white space.
fn trim_start_range(v: &Vec<char>, lo: usize, hi: usize) -> (r: Vec<char>)
    requires
        lo <= hi <= v@.len(),
    ensures
        r@ == trim_start_spec(v@.subrange(lo as int, hi as int)),
{
    let ghost s = v@.subrange(lo as int, hi as int);
    let mut a = lo;
    while a < hi && is_space_exec(v[a])
        invariant
            lo <= a <= hi <= v@.len(),
            s == v@.subrange(lo as int, hi as int),
            forall|k: int| 0 <= k < a - lo ==> is_space(#[trigger] s[k]),
        decreases hi - a,
    {
        a = a + 1;
    }
    proof {
        lemma_trim_start_skip(s, a - lo);
        assert(s.skip(a - lo) =~= v@.subrange(a as int, hi as int));
        if a < hi {
            assert(!is_space(v@.subrange(a as int, hi as int)[0]));
        }
    }
    let mut r: Vec<char> = Vec::new();
    let mut i = a;
    while i < hi
        invariant
            a <= i <= hi <= v@.len(),
            r@ == v@.subrange(a as int, i as int),
        decreases hi - i,
    {
        r.push(v[i]);
        i = i + 1;
        proof {
            assert(r@ =~= v@.subrange(a as int, i as int));
        }
    }
    r
}

/// What discovery reads of one interface without opening the device.
#[derive(Clone, Debug, PartialEq, Eq)]
pub struct InterfaceSummary {
    pub class: u8,
    pub name: Option<String>,
}

/// `s` with ASCII lowercase letters made uppercase.
pub open spec fn ascii_upper(s: Seq<char>) -> Seq<char> {
    s.map_values(|c: char| if 'a' <= c <= 'z' { ((c as u32) - 32) as char } else { c })
}

/// Whether an interface looks like MTP or PTP: a still-image or vendor
/// class, or a name that mentions MTP or PTP in any letter case.
pub open spec fn interface_plausible(i: InterfaceSummary) -> bool {
    i.class == 0x06 || i.class == 0xFF || (i.name matches Some(n) && (contains_seq(ascii_upper(n@), "MTP"@)
        || contains_seq(ascii_upper(n@), "PTP"@)))
}

/// Whether a device is worth opening: never a hub; always a composite,
/// still-image or vendor-class device; otherwise when one of its interfaces
/// is plausible.
pub open spec fn plausible_spec(device_class: u8, interfaces: Seq<InterfaceSummary>) -> bool {
    if device_class == 0x09 {
        false
    } else if device_class == 0x00 || device_class == 0x06 || device_class == 0xFF {
        true
    } else {
        exists|k: int| 0 <= k < interfaces.len() && #[trigger] interface_plausible(interfaces[k])
    }
}

fn ascii_uppercase(s: &str) -> (r: String)
    ensures
        r@ == ascii_upper(s@),
{
    let v = str_chars(s);
    let mut out: Vec<char> = Vec::new();
    let mut i: usize = 0;
    while i < v.len()
        invariant
            0 <= i <= v@.len(),
            v@ == s@,
            out@ == ascii_upper(s@).take(i as int),
        decreases v@.len() - i,
    {
        let c = v[i];
        let u = if 'a' <= c && c <= 'z' {
            match crate::strings::char_from_u32((c as u32) - 32) {
                Some(x) => x,
                None => {
                    proof {
                        assert(vstd::utf8::is_scalar((c as u32 - 32) as u32));
                    }
                    c
                },
            }
        } else {
            c
        };
        out.push(u);
        i = i + 1;
        proof {
            assert(out@ =~= ascii_upper(s@).take(i as int));
        }
    }
    proof {
        assert(ascii_upper(s@).take(v@.len() as int) =~= ascii_upper(s@));
    }
    string_of_chars(&out)
}

/// Which devices the pre-filter lets through, by class: a hub never; a
/// composite (0x00), still-image (0x06) or vendor (0xFF) device always; any
/// other device that has a still-image (0x06) or vendor (0xFF) interface.
pub proof fn lemma_plausible_by_class(device_class: u8, interfaces: Seq<InterfaceSummary>, k: int)
    requires
        0 <= k < interfaces.len(),
    ensures
        device_class == 0x09 ==> !plausible_spec(device_class, interfaces),
        (device_class == 0x00 || device_class == 0x06 || device_class == 0xFF) ==> plausible_spec(
            device_class,
            interfaces,
        ),
        (device_class != 0x09 && (interfaces[k].class == 0x06 || interfaces[k].class == 0xFF)) ==> plausible_spec(
            device_class,
            interfaces,
        ),
{
    if device_class != 0x09 && (interfaces[k].class == 0x06 || interfaces[k].class == 0xFF) {
        assert(interface_plausible(interfaces[k]));
    }
}

/// Whether a device is worth opening (see [`plausible_spec`]).
pub fn plausible(device_class: u8, interfaces: &[InterfaceSummary]) -> (b: bool)
    ensures
        b == plausible_spec(device_class, interfaces@),
        device_class == 0x09 ==> !b,
        forall|k: int|
            0 <= k < interfaces@.len() && device_class != 0x09 && (#[trigger] interfaces@[k].class == 0x06
                || interfaces@[k].class == 0xFF) ==> b,
{
    proof {
        assert forall|k: int|
            0 <= k < interfaces@.len() && device_class != 0x09 && (#[trigger] interfaces@[k].class == 0x06
                || interfaces@[k].class == 0xFF) implies plausible_spec(device_class, interfaces@) by {
            lemma_plausible_by_class(device_class, interfaces@, k);
        }
    }
    if device_class == 0x09 {
        return false;
    }
    if device_class == 0x00 || device_class == 0x06 || device_class == 0xFF {
        return true;
    }
    let mut k: usize = 0;
    while k < interfaces.len()
        invariant
            0 <= k <= interfaces@.len(),
            device_class != 0x09 && device_class != 0x00 && device_class != 0x06 && device_class != 0xFF,
            forall|j: int| 0 <= j < k ==> !#[trigger] interface_plausible(interfaces@[j]),
        decreases interfaces@.len() - k,
    {
        let i = &interfaces[k];
        let ok = if i.class == 0x06 || i.class == 0xFF {
            true
        } else {
            match &i.name {
                Some(n) => {
                    let u = ascii_uppercase(n.as_str());
                    str_contains(u.as_str(), "MTP") || str_contains(u.as_str(), "PTP")
                },
                None => false,
            }
        };
        if ok {
            proof {
                assert(interface_plausible(interfaces@[k as int]));
            }
            return true;
        }
        k = k + 1;
    }
    false
}

/// The transfer type of an endpoint.
#[derive(Clone, Copy, Debug, PartialEq, Eq, Structural)]
pub enum TransferKind {
    Control,
    Isochronous,
    Bulk,
    Interrupt,
}

/// What the endpoint-shape test reads of one endpoint.
#[derive(Clone, Copy, Debug, PartialEq, Eq, Structural)]
pub struct EndpointSummary {
    pub address: u8,
    pub is_in: bool,
    pub kind: TransferKind,
}

/// The address of the last endpoint in `eps` with the given direction and
/// transfer type.
pub open spec fn last_endpoint(eps: Seq<EndpointSummary>, is_in: bool, kind: TransferKind) -> Option<u8>
    decreases eps.len(),
{
    if eps.len() == 0 {
        None
    } else if eps.last().is_in == is_in && eps.last().kind == kind {
        Some(eps.last().address)
    } else {
        last_endpoint(eps.drop_last(), is_in, kind)
    }
}

/// The MTP endpoint shape: exactly three endpoints, among them a bulk IN, a
/// bulk OUT and an interrupt IN; gives their addresses in that order.
pub open spec fn mtp_endpoints_spec(eps: Seq<EndpointSummary>) -> Option<(u8, u8, u8)> {
    if eps.len() != 3 {
        None
    } else {
        match (
            last_endpoint(eps, true, TransferKind::Bulk),
            last_endpoint(eps, false, TransferKind::Bulk),
            last_endpoint(eps, true, TransferKind::Interrupt),
        ) {
            (Some(a), Some(b), Some(c)) => Some((a, b, c)),
            _ => None,
        }
    }
}

/// The bulk IN, bulk OUT and interrupt IN addresses of an alternate setting
/// with the MTP endpoint shape (see [`mtp_endpoints_spec`]).
pub fn mtp_endpoints(eps: &[EndpointSummary]) -> (r: Option<(u8, u8, u8)>)
    ensures
        r == mtp_endpoints_spec(eps@),
{
    if eps.len() != 3 {
        return None;
    }
    let mut bulk_in: Option<u8> = None;
    let mut bulk_out: Option<u8> = None;
    let mut interrupt_in: Option<u8> = None;
    let mut k: usize = 0;
    while k < eps.len()
        invariant
            0 <= k <= eps@.len(),
            bulk_in == last_endpoint(eps@.take(k as int), true, TransferKind::Bulk),
            bulk_out == last_endpoint(eps@.take(k as int), false, TransferKind::Bulk),
            interrupt_in == last_endpoint(eps@.take(k as int), true, TransferKind::Interrupt),
        decreases eps@.len() - k,
    {
        let e = eps[k];
        proof {
            assert(eps@.take(k + 1).drop_last() =~= eps@.take(k as int));
            assert(eps@.take(k + 1).last() == e);
        }
        match (e.is_in, e.kind) {
            (true, TransferKind::Bulk) => bulk_in = Some(e.address),
            (false, TransferKind::Bulk) => bulk_out = Some(e.address),
            (true, TransferKind::Interrupt) => interrupt_in = Some(e.address),
            _ => {},
        }
        k = k + 1;
    }
    proof {
        assert(eps@.take(3) =~= eps@);
    }
    match (bulk_in, bulk_out, interrupt_in) {
        (Some(a), Some(b), Some(c)) => Some((a, b, c)),
        _ => None,
    }
}

/// The last endpoint of a direction and transfer type is one of the
/// endpoints, with that direction and type; there is one exactly when some
/// endpoint has them.
proof fn lemma_last_endpoint(eps: Seq<EndpointSummary>, is_in: bool, kind: TransferKind)
    ensures
        last_endpoint(eps, is_in, kind) matches Some(a) ==> exists|i: int|
            0 <= i < eps.len() && #[trigger] eps[i] == (EndpointSummary { address: a, is_in, kind }),
        (exists|i: int| 0 <= i < eps.len() && (#[trigger] eps[i]).is_in == is_in && eps[i].kind == kind)
            ==> last_endpoint(eps, is_in, kind) is Some,
    decreases eps.len(),
{
    if eps.len() > 0 {
        let d = eps.drop_last();
        lemma_last_endpoint(d, is_in, kind);
        if !(eps.last().is_in == is_in && eps.last().kind == kind) {
            if last_endpoint(d, is_in, kind) is Some {
                let a = last_endpoint(d, is_in, kind)->0;
                let i = choose|i: int| 0 <= i < d.len() && #[trigger] d[i] == (EndpointSummary { address: a, is_in, kind });
                assert(eps[i] == d[i]);
            }
            if exists|i: int| 0 <= i < eps.len() && (#[trigger] eps[i]).is_in == is_in && eps[i].kind == kind {
                let i = choose|i: int| 0 <= i < eps.len() && (#[trigger] eps[i]).is_in == is_in && eps[i].kind == kind;
                assert(i != eps.len() - 1);
                assert(d[i] == eps[i]);
            }
        } else {
            assert(eps[eps.len() - 1] == eps.last());
        }
    }
}

/// The endpoint-shape test accepts exactly the alternate settings with three
/// endpoints among which are a bulk IN, a bulk OUT and an interrupt IN, and
/// the addresses it gives are of such endpoints, in that order.
pub proof fn lemma_mtp_endpoints_shape(eps: Seq<EndpointSummary>)
    ensures
        mtp_endpoints_spec(eps) is Some <==> {
            &&& eps.len() == 3
            &&& exists|i: int| 0 <= i < 3 && (#[trigger] eps[i]).is_in && eps[i].kind == TransferKind::Bulk
            &&& exists|i: int| 0 <= i < 3 && !(#[trigger] eps[i]).is_in && eps[i].kind == TransferKind::Bulk
            &&& exists|i: int| 0 <= i < 3 && (#[trigger] eps[i]).is_in && eps[i].kind == TransferKind::Interrupt
        },
        mtp_endpoints_spec(eps) matches Some((a, b, c)) ==> {
            &&& exists|i: int|
                0 <= i < eps.len() && #[trigger] eps[i] == (EndpointSummary {
                    address: a,
                    is_in: true,
                    kind: TransferKind::Bulk,
                })
            &&& exists|i: int|
                0 <= i < eps.len() && #[trigger] eps[i] == (EndpointSummary {
                    address: b,
                    is_in: false,
                    kind: TransferKind::Bulk,
                })
            &&& exists|i: int|
                0 <= i < eps.len() && #[trigger] eps[i] == (EndpointSummary {
                    address: c,
                    is_in: true,
                    kind: TransferKind::Interrupt,
                })
        },
{
    lemma_last_endpoint(eps, true, TransferKind::Bulk);
    lemma_last_endpoint(eps, false, TransferKind::Bulk);
    lemma_last_endpoint(eps, true, TransferKind::Interrupt);
}

/// An interface named with MTP, CDC or ACM anywhere in its name is taken
/// for an MTP interface.
pub proof fn lemma_mtp_interface_names(s: Seq<char>)
    ensures
        contains_seq(s, "MTP"@) ==> mtp_interface_name(s),
        contains_seq(s, "CDC"@) ==> mtp_interface_name(s),
        contains_seq(s, "ACM"@) ==> mtp_interface_name(s),
{
}

/// Whether an interface name marks an MTP interface: it mentions MTP, or
/// CDC or ACM (which some older devices report instead).
pub open spec fn mtp_interface_name(s: Seq<char>) -> bool {
    contains_seq(s, "MTP"@) || contains_seq(s, "CDC"@) || contains_seq(s, "ACM"@)
}

/// Whether an interface name marks an MTP interface (see
/// [`mtp_interface_name`]).
pub fn is_mtp_interface_name(s: &str) -> (b: bool)
    ensures
        b == mtp_interface_name(s@),
{
    str_contains(s, "MTP") || str_contains(s, "CDC") || str_contains(s, "ACM")
}

} // verus!
