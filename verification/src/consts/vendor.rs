use vstd::prelude::*;
use vstd::string::StringExecFns;
use crate::decimal::push_hex_upper_pad;
use super::{name_view, display32};

verus! {

/// MTP/PTP vendor extension id (`VENDOR_*`).
#[derive(Clone, Copy, PartialEq, Eq, Hash, PartialOrd, Ord, Debug)]
pub struct Vendor(pub u32);

/// The spec name of each `Vendor` value that has one.
pub open spec fn vendor_name(c: u32) -> Option<Seq<char>> {
    match c {
        0x00000001u32 => Some("EASTMAN_KODAK"@),
        0x00000002u32 => Some("SEIKO_EPSON"@),
        0x00000003u32 => Some("AGILENT"@),
        0x00000004u32 => Some("POLAROID"@),
        0x00000005u32 => Some("AGFA_GEVAERT"@),
        0x00000006u32 => Some("MICROSOFT"@),
        0x00000007u32 => Some("EQUINOX"@),
        0x00000008u32 => Some("VIEWQUEST"@),
        0x00000009u32 => Some("STMICROELECTRONICS"@),
        0x0000000Au32 => Some("NIKON"@),
        0x0000000Bu32 => Some("CANON"@),
        0x0000000Cu32 => Some("FOTONATION"@),
        0x0000000Du32 => Some("PENTAX"@),
        0x0000000Eu32 => Some("FUJI"@),
        _ => None,
    }
}

impl Vendor {
    pub const EASTMAN_KODAK: u32 = 0x00000001;
    pub const SEIKO_EPSON: u32 = 0x00000002;
    pub const AGILENT: u32 = 0x00000003;
    pub const POLAROID: u32 = 0x00000004;
    pub const AGFA_GEVAERT: u32 = 0x00000005;
    pub const MICROSOFT: u32 = 0x00000006;
    pub const EQUINOX: u32 = 0x00000007;
    pub const VIEWQUEST: u32 = 0x00000008;
    pub const STMICROELECTRONICS: u32 = 0x00000009;
    pub const NIKON: u32 = 0x0000000A;
    pub const CANON: u32 = 0x0000000B;
    pub const FOTONATION: u32 = 0x0000000C;
    pub const PENTAX: u32 = 0x0000000D;
    pub const FUJI: u32 = 0x0000000E;

    /// The spec name of this value, or `None` where the table has none.
    pub fn name(self) -> (r: Option<&'static str>)
        ensures
            name_view(r) == vendor_name(self.0),
    {
        match self.0 {
            0x00000001 => Some("EASTMAN_KODAK"),
            0x00000002 => Some("SEIKO_EPSON"),
            0x00000003 => Some("AGILENT"),
            0x00000004 => Some("POLAROID"),
            0x00000005 => Some("AGFA_GEVAERT"),
            0x00000006 => Some("MICROSOFT"),
            0x00000007 => Some("EQUINOX"),
            0x00000008 => Some("VIEWQUEST"),
            0x00000009 => Some("STMICROELECTRONICS"),
            0x0000000A => Some("NIKON"),
            0x0000000B => Some("CANON"),
            0x0000000C => Some("FOTONATION"),
            0x0000000D => Some("PENTAX"),
            0x0000000E => Some("FUJI"),
            _ => None,
        }
    }

    /// The spec name, else the value as `0x` and 8 uppercase hex digits.
    pub fn to_string(&self) -> (s: String)
        ensures
            s@ == display32(vendor_name(self.0), self.0),
    {
        match self.name() {
            Some(n) => n.to_owned(),
            None => {
                let mut s = String::new();
                s.append("0x");
                push_hex_upper_pad(&mut s, self.0 as u64, 8);
                s
            },
        }
    }
}

} // verus!
