use vstd::prelude::*;
use vstd::string::StringExecFns;
use crate::decimal::push_hex_upper_pad;
use super::{name_view, display32};

verus! {

/// get object handles selector (`GOH_*`).
#[derive(Clone, Copy, PartialEq, Eq, Hash, PartialOrd, Ord, Debug)]
pub struct GetObjectHandles(pub u32);

/// The spec name of each `GetObjectHandles` value that has one.
pub open spec fn get_object_handles_name(c: u32) -> Option<Seq<char>> {
    match c {
        0x00000000u32 => Some("ALL_ASSOCS"@),
        0xFFFFFFFFu32 => Some("ALL_STORAGE"@),
        _ => None,
    }
}

impl GetObjectHandles {
    pub const ALL_ASSOCS: u32 = 0x00000000;
    pub const ALL_FORMATS: u32 = 0x00000000;
    pub const ALL_STORAGE: u32 = 0xFFFFFFFF;
    pub const ROOT_PARENT: u32 = 0xFFFFFFFF;

    /// The spec name of this value, or `None` where the table has none.
    pub fn name(self) -> (r: Option<&'static str>)
        ensures
            name_view(r) == get_object_handles_name(self.0),
    {
        match self.0 {
            0x00000000 => Some("ALL_ASSOCS"),
            0xFFFFFFFF => Some("ALL_STORAGE"),
            _ => None,
        }
    }

    /// The spec name, else the value as `0x` and 8 uppercase hex digits.
    pub fn to_string(&self) -> (s: String)
        ensures
            s@ == display32(get_object_handles_name(self.0), self.0),
    {
        match self.name() {
            Some(n) => n.to_owned(),
            None => {
                let mut s = String::new();
                s.append("0x");
                push_hex_upper_pad(&mut s, self.0 as u64, 8);
                s
            },
        }
    }
}

} // verus!
