use vstd::prelude::*;
use vstd::string::StringExecFns;
use crate::decimal::push_hex_upper_pad;
use super::{name_view, display16};

verus! {

/// filesystem type (`FST_*`).
#[derive(Clone, Copy, PartialEq, Eq, Hash, PartialOrd, Ord, Debug)]
pub struct FilesystemType(pub u16);

/// The spec name of each `FilesystemType` value that has one.
pub open spec fn filesystem_type_name(c: u16) -> Option<Seq<char>> {
    match c {
        0x0000u16 => Some("Undefined"@),
        0x0001u16 => Some("GenericFlat"@),
        0x0002u16 => Some("GenericHierarchical"@),
        0x0003u16 => Some("DCF"@),
        _ => None,
    }
}

impl FilesystemType {
    pub const UNDEFINED: u16 = 0x0000;
    pub const GENERIC_FLAT: u16 = 0x0001;
    pub const GENERIC_HIERARCHICAL: u16 = 0x0002;
    pub const DCF: u16 = 0x0003;

    /// The spec name of this value, or `None` where the table has none.
    pub fn name(self) -> (r: Option<&'static str>)
        ensures
            name_view(r) == filesystem_type_name(self.0),
    {
        match self.0 {
            0x0000 => Some("Undefined"),
            0x0001 => Some("GenericFlat"),
            0x0002 => Some("GenericHierarchical"),
            0x0003 => Some("DCF"),
            _ => None,
        }
    }

    /// The spec name, else the value as `0x` and 4 uppercase hex digits.
    pub fn to_string(&self) -> (s: String)
        ensures
            s@ == display16(filesystem_type_name(self.0), self.0),
    {
        match self.name() {
            Some(n) => n.to_owned(),
            None => {
                let mut s = String::new();
                s.append("0x");
                push_hex_upper_pad(&mut s, self.0 as u64, 4);
                s
            },
        }
    }
}

} // verus!
