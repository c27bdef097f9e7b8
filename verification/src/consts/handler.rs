use vstd::prelude::*;
use vstd::string::StringExecFns;
use crate::decimal::push_hex_upper_pad;
use super::{name_view, display32};

verus! {

/// object handler selector (`HANDLER_*`).
#[derive(Clone, Copy, PartialEq, Eq, Hash, PartialOrd, Ord, Debug)]
pub struct Handler(pub u32);

/// The spec name of each `Handler` value that has one.
pub open spec fn handler_name(c: u32) -> Option<Seq<char>> {
    match c {
        0x00000000u32 => Some("ROOT"@),
        0xFFFFFFFFu32 => Some("SPECIAL"@),
        _ => None,
    }
}

impl Handler {
    pub const ROOT: u32 = 0x00000000;
    pub const SPECIAL: u32 = 0xFFFFFFFF;

    /// The spec name of this value, or `None` where the table has none.
    pub fn name(self) -> (r: Option<&'static str>)
        ensures
            name_view(r) == handler_name(self.0),
    {
        match self.0 {
            0x00000000 => Some("ROOT"),
            0xFFFFFFFF => Some("SPECIAL"),
            _ => None,
        }
    }

    /// The spec name, else the value as `0x` and 8 uppercase hex digits.
    pub fn to_string(&self) -> (s: String)
        ensures
            s@ == display32(handler_name(self.0), self.0),
    {
        match self.name() {
            Some(n) => n.to_owned(),
            None => {
                let mut s = String::new();
                s.append("0x");
                push_hex_upper_pad(&mut s, self.0 as u64, 8);
                s
            },
        }
    }
}

} // verus!
