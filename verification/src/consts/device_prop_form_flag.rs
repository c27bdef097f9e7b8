use vstd::prelude::*;
use vstd::string::StringExecFns;
use crate::decimal::push_hex_upper_pad;
use super::{name_view, display16};

verus! {

/// device property form field (`DPFF_*`).
#[derive(Clone, Copy, PartialEq, Eq, Hash, PartialOrd, Ord, Debug)]
pub struct DevicePropFormFlag(pub u16);

/// The spec name of each `DevicePropFormFlag` value that has one.
pub open spec fn device_prop_form_flag_name(c: u16) -> Option<Seq<char>> {
    match c {
        0x0000u16 => Some("None"@),
        0x0001u16 => Some("Range"@),
        0x0002u16 => Some("Enumeration"@),
        _ => None,
    }
}

impl DevicePropFormFlag {
    pub const NONE: u16 = 0x0000;
    pub const RANGE: u16 = 0x0001;
    pub const ENUMERATION: u16 = 0x0002;

    /// The spec name of this value, or `None` where the table has none.
    pub fn name(self) -> (r: Option<&'static str>)
        ensures
            name_view(r) == device_prop_form_flag_name(self.0),
    {
        match self.0 {
            0x0000 => Some("None"),
            0x0001 => Some("Range"),
            0x0002 => Some("Enumeration"),
            _ => None,
        }
    }

    /// The spec name, else the value as `0x` and 4 uppercase hex digits.
    pub fn to_string(&self) -> (s: String)
        ensures
            s@ == display16(device_prop_form_flag_name(self.0), self.0),
    {
        match self.name() {
            Some(n) => n.to_owned(),
            None => {
                let mut s = String::new();
                s.append("0x");
                push_hex_upper_pad(&mut s, self.0 as u64, 4);
                s
            },
        }
    }
}

} // verus!
