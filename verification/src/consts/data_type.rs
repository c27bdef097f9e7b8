use vstd::prelude::*;
use vstd::string::StringExecFns;
use crate::decimal::push_hex_upper_pad;
use super::{name_view, display16};

verus! {

/// data type code (`DTC_*`).
#[derive(Clone, Copy, PartialEq, Eq, Hash, PartialOrd, Ord, Debug)]
pub struct DataType(pub u16);

/// The spec name of each `DataType` value that has one.
pub open spec fn data_type_name(c: u16) -> Option<Seq<char>> {
    match c {
        0x0000u16 => Some("UNDEF"@),
        0x0001u16 => Some("INT8"@),
        0x0002u16 => Some("UINT8"@),
        0x0003u16 => Some("INT16"@),
        0x0004u16 => Some("UINT16"@),
        0x0005u16 => Some("INT32"@),
        0x0006u16 => Some("UINT32"@),
        0x0007u16 => Some("INT64"@),
        0x0008u16 => Some("UINT64"@),
        0x0009u16 => Some("INT128"@),
        0x000Au16 => Some("UINT128"@),
        0x4000u16 => Some("ARRAY_MASK"@),
        0xFFFFu16 => Some("STR"@),
        _ => None,
    }
}

impl DataType {
    pub const UNDEF: u16 = 0x0000;
    pub const INT8: u16 = 0x0001;
    pub const UINT8: u16 = 0x0002;
    pub const INT16: u16 = 0x0003;
    pub const UINT16: u16 = 0x0004;
    pub const INT32: u16 = 0x0005;
    pub const UINT32: u16 = 0x0006;
    pub const INT64: u16 = 0x0007;
    pub const UINT64: u16 = 0x0008;
    pub const INT128: u16 = 0x0009;
    pub const UINT128: u16 = 0x000A;
    pub const ARRAY_MASK: u16 = 0x4000;
    pub const STR: u16 = 0xFFFF;

    /// The spec name of this value, or `None` where the table has none.
    pub fn name(self) -> (r: Option<&'static str>)
        ensures
            name_view(r) == data_type_name(self.0),
    {
        match self.0 {
            0x0000 => Some("UNDEF"),
            0x0001 => Some("INT8"),
            0x0002 => Some("UINT8"),
            0x0003 => Some("INT16"),
            0x0004 => Some("UINT16"),
            0x0005 => Some("INT32"),
            0x0006 => Some("UINT32"),
            0x0007 => Some("INT64"),
            0x0008 => Some("UINT64"),
            0x0009 => Some("INT128"),
            0x000A => Some("UINT128"),
            0x4000 => Some("ARRAY_MASK"),
            0xFFFF => Some("STR"),
            _ => None,
        }
    }

    /// The spec name, else the value as `0x` and 4 uppercase hex digits.
    pub fn to_string(&self) -> (s: String)
        ensures
            s@ == display16(data_type_name(self.0), self.0),
    {
        match self.name() {
            Some(n) => n.to_owned(),
            None => {
                let mut s = String::new();
                s.append("0x");
                push_hex_upper_pad(&mut s, self.0 as u64, 4);
                s
            },
        }
    }
}

} // verus!
