use vstd::prelude::*;
use vstd::string::StringExecFns;
use crate::decimal::push_hex_upper_pad;
use super::{name_view, display16};

verus! {

/// association type (`AT_*`).
#[derive(Clone, Copy, PartialEq, Eq, Hash, PartialOrd, Ord, Debug)]
pub struct AssociationType(pub u16);

/// The spec name of each `AssociationType` value that has one.
pub open spec fn association_type_name(c: u16) -> Option<Seq<char>> {
    match c {
        0x0000u16 => Some("Undefined"@),
        0x0001u16 => Some("GenericFolder"@),
        0x0002u16 => Some("Album"@),
        0x0003u16 => Some("TimeSequence"@),
        0x0004u16 => Some("HorizontalPanoramic"@),
        0x0005u16 => Some("VerticalPanoramic"@),
        0x0006u16 => Some("2DPanoramic"@),
        0x0007u16 => Some("AncillaryData"@),
        _ => None,
    }
}

impl AssociationType {
    pub const UNDEFINED: u16 = 0x0000;
    pub const GENERIC_FOLDER: u16 = 0x0001;
    pub const ALBUM: u16 = 0x0002;
    pub const TIME_SEQUENCE: u16 = 0x0003;
    pub const HORIZONTAL_PANORAMIC: u16 = 0x0004;
    pub const VERTICAL_PANORAMIC: u16 = 0x0005;
    pub const PANORAMIC_2D: u16 = 0x0006;
    pub const ANCILLARY_DATA: u16 = 0x0007;

    /// The spec name of this value, or `None` where the table has none.
    pub fn name(self) -> (r: Option<&'static str>)
        ensures
            name_view(r) == association_type_name(self.0),
    {
        match self.0 {
            0x0000 => Some("Undefined"),
            0x0001 => Some("GenericFolder"),
            0x0002 => Some("Album"),
            0x0003 => Some("TimeSequence"),
            0x0004 => Some("HorizontalPanoramic"),
            0x0005 => Some("VerticalPanoramic"),
            0x0006 => Some("2DPanoramic"),
            0x0007 => Some("AncillaryData"),
            _ => None,
        }
    }

    /// The spec name, else the value as `0x` and 4 uppercase hex digits.
    pub fn to_string(&self) -> (s: String)
        ensures
            s@ == display16(association_type_name(self.0), self.0),
    {
        match self.name() {
            Some(n) => n.to_owned(),
            None => {
                let mut s = String::new();
                s.append("0x");
                push_hex_upper_pad(&mut s, self.0 as u64, 4);
                s
            },
        }
    }
}

} // verus!
