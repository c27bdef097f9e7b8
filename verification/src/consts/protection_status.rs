use vstd::prelude::*;
use vstd::string::StringExecFns;
use crate::decimal::push_hex_upper_pad;
use super::{name_view, display16};

verus! {

/// protection status (`PS_*`).
#[derive(Clone, Copy, PartialEq, Eq, Hash, PartialOrd, Ord, Debug)]
pub struct ProtectionStatus(pub u16);

/// The spec name of each `ProtectionStatus` value that has one.
pub open spec fn protection_status_name(c: u16) -> Option<Seq<char>> {
    match c {
        0x0000u16 => Some("NoProtection"@),
        0x0001u16 => Some("ReadOnly"@),
        0x8002u16 => Some("MTP_ReadOnlyData"@),
        0x8003u16 => Some("MTP_NonTransferableData"@),
        _ => None,
    }
}

impl ProtectionStatus {
    pub const NO_PROTECTION: u16 = 0x0000;
    pub const READ_ONLY: u16 = 0x0001;
    pub const MTP_READ_ONLY_DATA: u16 = 0x8002;
    pub const MTP_NON_TRANSFERABLE_DATA: u16 = 0x8003;

    /// The spec name of this value, or `None` where the table has none.
    pub fn name(self) -> (r: Option<&'static str>)
        ensures
            name_view(r) == protection_status_name(self.0),
    {
        match self.0 {
            0x0000 => Some("NoProtection"),
            0x0001 => Some("ReadOnly"),
            0x8002 => Some("MTP_ReadOnlyData"),
            0x8003 => Some("MTP_NonTransferableData"),
            _ => None,
        }
    }

    /// The spec name, else the value as `0x` and 4 uppercase hex digits.
    pub fn to_string(&self) -> (s: String)
        ensures
            s@ == display16(protection_status_name(self.0), self.0),
    {
        match self.name() {
            Some(n) => n.to_owned(),
            None => {
                let mut s = String::new();
                s.append("0x");
                push_hex_upper_pad(&mut s, self.0 as u64, 4);
                s
            },
        }
    }
}

} // verus!
