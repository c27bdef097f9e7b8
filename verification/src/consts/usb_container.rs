use vstd::prelude::*;
use vstd::string::StringExecFns;
use crate::decimal::push_hex_upper_pad;
use super::{name_view, display16};

verus! {

/// USB container / bulk constant (`USB_*`).
#[derive(Clone, Copy, PartialEq, Eq, Hash, PartialOrd, Ord, Debug)]
pub struct UsbContainer(pub u16);

/// The spec name of each `UsbContainer` value that has one.
pub open spec fn usb_container_name(c: u16) -> Option<Seq<char>> {
    match c {
        0x0000u16 => Some("CONTAINER_UNDEFINED"@),
        0x0001u16 => Some("CONTAINER_COMMAND"@),
        0x0002u16 => Some("CONTAINER_DATA"@),
        0x0003u16 => Some("CONTAINER_RESPONSE"@),
        0x0004u16 => Some("CONTAINER_EVENT"@),
        0x0200u16 => Some("BULK_HS_MAX_PACKET_LEN_READ"@),
        _ => None,
    }
}

impl UsbContainer {
    pub const CONTAINER_UNDEFINED: u16 = 0x0000;
    pub const CONTAINER_COMMAND: u16 = 0x0001;
    pub const CONTAINER_DATA: u16 = 0x0002;
    pub const CONTAINER_RESPONSE: u16 = 0x0003;
    pub const CONTAINER_EVENT: u16 = 0x0004;
    pub const BULK_HS_MAX_PACKET_LEN_READ: u16 = 0x0200;
    pub const BULK_HS_MAX_PACKET_LEN_WRITE: u16 = 0x0200;

    /// The spec name of this value, or `None` where the table has none.
    pub fn name(self) -> (r: Option<&'static str>)
        ensures
            name_view(r) == usb_container_name(self.0),
    {
        match self.0 {
            0x0000 => Some("CONTAINER_UNDEFINED"),
            0x0001 => Some("CONTAINER_COMMAND"),
            0x0002 => Some("CONTAINER_DATA"),
            0x0003 => Some("CONTAINER_RESPONSE"),
            0x0004 => Some("CONTAINER_EVENT"),
            0x0200 => Some("BULK_HS_MAX_PACKET_LEN_READ"),
            _ => None,
        }
    }

    /// The spec name, else the value as `0x` and 4 uppercase hex digits.
    pub fn to_string(&self) -> (s: String)
        ensures
            s@ == display16(usb_container_name(self.0), self.0),
    {
        match self.name() {
            Some(n) => n.to_owned(),
            None => {
                let mut s = String::new();
                s.append("0x");
                push_hex_upper_pad(&mut s, self.0 as u64, 4);
                s
            },
        }
    }
}

} // verus!
