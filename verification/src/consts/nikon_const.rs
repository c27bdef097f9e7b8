use vstd::prelude::*;
use vstd::string::StringExecFns;
use crate::decimal::push_hex_upper_pad;
use super::{name_view, display16};

verus! {

/// Nikon vendor constant (`NIKON_*`).
#[derive(Clone, Copy, PartialEq, Eq, Hash, PartialOrd, Ord, Debug)]
pub struct NikonConst(pub u16);

/// The spec name of each `NikonConst` value that has one.
pub open spec fn nikon_const_name(c: u16) -> Option<Seq<char>> {
    match c {
        0x0013u16 => Some("MaxCurvePoints"@),
        _ => None,
    }
}

impl NikonConst {
    pub const MAX_CURVE_POINTS: u16 = 0x0013;

    /// The spec name of this value, or `None` where the table has none.
    pub fn name(self) -> (r: Option<&'static str>)
        ensures
            name_view(r) == nikon_const_name(self.0),
    {
        match self.0 {
            0x0013 => Some("MaxCurvePoints"),
            _ => None,
        }
    }

    /// The spec name, else the value as `0x` and 4 uppercase hex digits.
    pub fn to_string(&self) -> (s: String)
        ensures
            s@ == display16(nikon_const_name(self.0), self.0),
    {
        match self.name() {
            Some(n) => n.to_owned(),
            None => {
                let mut s = String::new();
                s.append("0x");
                push_hex_upper_pad(&mut s, self.0 as u64, 4);
                s
            },
        }
    }
}

} // verus!
