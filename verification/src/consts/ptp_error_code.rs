use vstd::prelude::*;
use vstd::string::StringExecFns;
use crate::decimal::push_hex_upper_pad;
use super::{name_view, display16};

verus! {

/// PTP-layer error code (`ERROR_*`).
#[derive(Clone, Copy, PartialEq, Eq, Hash, PartialOrd, Ord, Debug)]
pub struct PtpErrorCode(pub u16);

/// The spec name of each `PtpErrorCode` value that has one.
pub open spec fn ptp_error_code_name(c: u16) -> Option<Seq<char>> {
    match c {
        0x02FAu16 => Some("TIMEOUT"@),
        0x02FBu16 => Some("CANCEL"@),
        0x02FCu16 => Some("BADPARAM"@),
        0x02FDu16 => Some("RESP_EXPECTED"@),
        0x02FEu16 => Some("DATA_EXPECTED"@),
        0x02FFu16 => Some("IO"@),
        _ => None,
    }
}

impl PtpErrorCode {
    pub const TIMEOUT: u16 = 0x02FA;
    pub const CANCEL: u16 = 0x02FB;
    pub const BADPARAM: u16 = 0x02FC;
    pub const RESP_EXPECTED: u16 = 0x02FD;
    pub const DATA_EXPECTED: u16 = 0x02FE;
    pub const IO: u16 = 0x02FF;

    /// The spec name of this value, or `None` where the table has none.
    pub fn name(self) -> (r: Option<&'static str>)
        ensures
            name_view(r) == ptp_error_code_name(self.0),
    {
        match self.0 {
            0x02FA => Some("TIMEOUT"),
            0x02FB => Some("CANCEL"),
            0x02FC => Some("BADPARAM"),
            0x02FD => Some("RESP_EXPECTED"),
            0x02FE => Some("DATA_EXPECTED"),
            0x02FF => Some("IO"),
            _ => None,
        }
    }

    /// The spec name, else the value as `0x` and 4 uppercase hex digits.
    pub fn to_string(&self) -> (s: String)
        ensures
            s@ == display16(ptp_error_code_name(self.0), self.0),
    {
        match self.name() {
            Some(n) => n.to_owned(),
            None => {
                let mut s = String::new();
                s.append("0x");
                push_hex_upper_pad(&mut s, self.0 as u64, 4);
                s
            },
        }
    }
}

} // verus!
