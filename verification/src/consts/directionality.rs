use vstd::prelude::*;
use vstd::string::StringExecFns;
use crate::decimal::push_hex_upper_pad;
use super::{name_view, display16};

verus! {

/// byte-order directionality (`DL_*`).
#[derive(Clone, Copy, PartialEq, Eq, Hash, PartialOrd, Ord, Debug)]
pub struct Directionality(pub u16);

/// The spec name of each `Directionality` value that has one.
pub open spec fn directionality_name(c: u16) -> Option<Seq<char>> {
    match c {
        0x000Fu16 => Some("LE"@),
        0x00F0u16 => Some("BE"@),
        _ => None,
    }
}

impl Directionality {
    pub const LE: u16 = 0x000F;
    pub const BE: u16 = 0x00F0;

    /// The spec name of this value, or `None` where the table has none.
    pub fn name(self) -> (r: Option<&'static str>)
        ensures
            name_view(r) == directionality_name(self.0),
    {
        match self.0 {
            0x000F => Some("LE"),
            0x00F0 => Some("BE"),
            _ => None,
        }
    }

    /// The spec name, else the value as `0x` and 4 uppercase hex digits.
    pub fn to_string(&self) -> (s: String)
        ensures
            s@ == display16(directionality_name(self.0), self.0),
    {
        match self.name() {
            Some(n) => n.to_owned(),
            None => {
                let mut s = String::new();
                s.append("0x");
                push_hex_upper_pad(&mut s, self.0 as u64, 4);
                s
            },
        }
    }
}

} // verus!
