use vstd::prelude::*;
use vstd::string::StringExecFns;
use crate::decimal::push_hex_upper_pad;
use super::{name_view, display16};

verus! {

/// storage access capability (`AC_*`).
#[derive(Clone, Copy, PartialEq, Eq, Hash, PartialOrd, Ord, Debug)]
pub struct AccessCapability(pub u16);

/// The spec name of each `AccessCapability` value that has one.
pub open spec fn access_capability_name(c: u16) -> Option<Seq<char>> {
    match c {
        0x0000u16 => Some("ReadWrite"@),
        0x0001u16 => Some("ReadOnly"@),
        0x0002u16 => Some("ReadOnly_with_Object_Deletion"@),
        _ => None,
    }
}

impl AccessCapability {
    pub const READ_WRITE: u16 = 0x0000;
    pub const READ_ONLY: u16 = 0x0001;
    pub const READ_ONLY_WITH_OBJECT_DELETION: u16 = 0x0002;

    /// The spec name of this value, or `None` where the table has none.
    pub fn name(self) -> (r: Option<&'static str>)
        ensures
            name_view(r) == access_capability_name(self.0),
    {
        match self.0 {
            0x0000 => Some("ReadWrite"),
            0x0001 => Some("ReadOnly"),
            0x0002 => Some("ReadOnly_with_Object_Deletion"),
            _ => None,
        }
    }

    /// The spec name, else the value as `0x` and 4 uppercase hex digits.
    pub fn to_string(&self) -> (s: String)
        ensures
            s@ == display16(access_capability_name(self.0), self.0),
    {
        match self.name() {
            Some(n) => n.to_owned(),
            None => {
                let mut s = String::new();
                s.append("0x");
                push_hex_upper_pad(&mut s, self.0 as u64, 4);
                s
            },
        }
    }
}

} // verus!
