use vstd::prelude::*;
use vstd::string::StringExecFns;
use crate::decimal::push_hex_upper_pad;
use super::{name_view, display16};

verus! {

/// event code (`EC_*`).
#[derive(Clone, Copy, PartialEq, Eq, Hash, PartialOrd, Ord, Debug)]
pub struct EventCode(pub u16);

/// The spec name of each `EventCode` value that has one.
pub open spec fn event_code_name(c: u16) -> Option<Seq<char>> {
    match c {
        0x4000u16 => Some("Undefined"@),
        0x4001u16 => Some("CancelTransaction"@),
        0x4002u16 => Some("ObjectAdded"@),
        0x4003u16 => Some("ObjectRemoved"@),
        0x4004u16 => Some("StoreAdded"@),
        0x4005u16 => Some("StoreRemoved"@),
        0x4006u16 => Some("DevicePropChanged"@),
        0x4007u16 => Some("ObjectInfoChanged"@),
        0x4008u16 => Some("DeviceInfoChanged"@),
        0x4009u16 => Some("RequestObjectTransfer"@),
        0x400Au16 => Some("StoreFull"@),
        0x400Bu16 => Some("DeviceReset"@),
        0x400Cu16 => Some("StorageInfoChanged"@),
        0x400Du16 => Some("CaptureComplete"@),
        0x400Eu16 => Some("UnreportedStatus"@),
        0xC101u16 => Some("Nikon_ObjectAddedInSDRAM"@),
        0xC102u16 => Some("Nikon_CaptureCompleteRecInSdram"@),
        0xC103u16 => Some("Nikon_AdvancedTransfer"@),
        0xC104u16 => Some("Nikon_PreviewImageAdded"@),
        0xC801u16 => Some("MTP_ObjectPropChanged"@),
        0xC802u16 => Some("MTP_ObjectPropDescChanged"@),
        0xC803u16 => Some("MTP_ObjectReferencesChanged"@),
        _ => None,
    }
}

impl EventCode {
    pub const UNDEFINED: u16 = 0x4000;
    pub const CANCEL_TRANSACTION: u16 = 0x4001;
    pub const OBJECT_ADDED: u16 = 0x4002;
    pub const OBJECT_REMOVED: u16 = 0x4003;
    pub const STORE_ADDED: u16 = 0x4004;
    pub const STORE_REMOVED: u16 = 0x4005;
    pub const DEVICE_PROP_CHANGED: u16 = 0x4006;
    pub const OBJECT_INFO_CHANGED: u16 = 0x4007;
    pub const DEVICE_INFO_CHANGED: u16 = 0x4008;
    pub const REQUEST_OBJECT_TRANSFER: u16 = 0x4009;
    pub const STORE_FULL: u16 = 0x400A;
    pub const DEVICE_RESET: u16 = 0x400B;
    pub const STORAGE_INFO_CHANGED: u16 = 0x400C;
    pub const CAPTURE_COMPLETE: u16 = 0x400D;
    pub const UNREPORTED_STATUS: u16 = 0x400E;
    pub const CANON_OBJECT_INFO_CHANGED: u16 = 0xC008;
    pub const CANON_REQUEST_OBJECT_TRANSFER: u16 = 0xC009;
    pub const CANON_CAMERA_MODE_CHANGED: u16 = 0xC00C;
    pub const CANON_SHUTTER_BUTTON_PRESSED: u16 = 0xC00E;
    pub const CANON_START_DIRECT_TRANSFER: u16 = 0xC011;
    pub const CANON_STOP_DIRECT_TRANSFER: u16 = 0xC013;
    pub const NIKON_OBJECT_ADDED_IN_SDRAM: u16 = 0xC101;
    pub const NIKON_CAPTURE_COMPLETE_REC_IN_SDRAM: u16 = 0xC102;
    pub const NIKON_ADVANCED_TRANSFER: u16 = 0xC103;
    pub const NIKON_PREVIEW_IMAGE_ADDED: u16 = 0xC104;
    pub const CANON_EOS_REQUEST_OBJECT_TRANSFER_TS: u16 = 0xC1A2;
    pub const MTP_OBJECT_PROP_CHANGED: u16 = 0xC801;
    pub const MTP_OBJECT_PROP_DESC_CHANGED: u16 = 0xC802;
    pub const MTP_OBJECT_REFERENCES_CHANGED: u16 = 0xC803;
    pub const CANON_EOS_REQUEST_GET_EVENT: u16 = 0xC101;
    pub const CANON_EOS_OBJECT_ADDED_EX: u16 = 0xC181;
    pub const CANON_EOS_OBJECT_REMOVED: u16 = 0xC182;
    pub const CANON_EOS_REQUEST_GET_OBJECT_INFO_EX: u16 = 0xC183;
    pub const CANON_EOS_STORAGE_STATUS_CHANGED: u16 = 0xC184;
    pub const CANON_EOS_STORAGE_INFO_CHANGED: u16 = 0xC185;
    pub const CANON_EOS_REQUEST_OBJECT_TRANSFER: u16 = 0xC186;
    pub const CANON_EOS_OBJECT_INFO_CHANGED_EX: u16 = 0xC187;
    pub const CANON_EOS_OBJECT_CONTENT_CHANGED: u16 = 0xC188;
    pub const CANON_EOS_PROP_VALUE_CHANGED: u16 = 0xC189;
    pub const CANON_EOS_AVAIL_LIST_CHANGED: u16 = 0xC18A;
    pub const CANON_EOS_CAMERA_STATUS_CHANGED: u16 = 0xC18B;
    pub const CANON_EOS_WILL_SOON_SHUTDOWN: u16 = 0xC18D;
    pub const CANON_EOS_SHUTDOWN_TIMER_UPDATED: u16 = 0xC18E;
    pub const CANON_EOS_REQUEST_CANCEL_TRANSFER: u16 = 0xC18F;
    pub const CANON_EOS_REQUEST_OBJECT_TRANSFER_DT: u16 = 0xC190;
    pub const CANON_EOS_REQUEST_CANCEL_TRANSFER_DT: u16 = 0xC191;
    pub const CANON_EOS_STORE_ADDED: u16 = 0xC192;
    pub const CANON_EOS_STORE_REMOVED: u16 = 0xC193;
    pub const CANON_EOS_BULB_EXPOSURE_TIME: u16 = 0xC194;
    pub const CANON_EOS_RECORDING_TIME: u16 = 0xC195;
    pub const CANON_EOS_AF_RESULT: u16 = 0xC1A3;

    /// The spec name of this value, or `None` where the table has none.
    pub fn name(self) -> (r: Option<&'static str>)
        ensures
            name_view(r) == event_code_name(self.0),
    {
        match self.0 {
            0x4000 => Some("Undefined"),
            0x4001 => Some("CancelTransaction"),
            0x4002 => Some("ObjectAdded"),
            0x4003 => Some("ObjectRemoved"),
            0x4004 => Some("StoreAdded"),
            0x4005 => Some("StoreRemoved"),
            0x4006 => Some("DevicePropChanged"),
            0x4007 => Some("ObjectInfoChanged"),
            0x4008 => Some("DeviceInfoChanged"),
            0x4009 => Some("RequestObjectTransfer"),
            0x400A => Some("StoreFull"),
            0x400B => Some("DeviceReset"),
            0x400C => Some("StorageInfoChanged"),
            0x400D => Some("CaptureComplete"),
            0x400E => Some("UnreportedStatus"),
            0xC101 => Some("Nikon_ObjectAddedInSDRAM"),
            0xC102 => Some("Nikon_CaptureCompleteRecInSdram"),
            0xC103 => Some("Nikon_AdvancedTransfer"),
            0xC104 => Some("Nikon_PreviewImageAdded"),
            0xC801 => Some("MTP_ObjectPropChanged"),
            0xC802 => Some("MTP_ObjectPropDescChanged"),
            0xC803 => Some("MTP_ObjectReferencesChanged"),
            _ => None,
        }
    }

    /// The spec name, else the value as `0x` and 4 uppercase hex digits.
    pub fn to_string(&self) -> (s: String)
        ensures
            s@ == display16(event_code_name(self.0), self.0),
    {
        match self.name() {
            Some(n) => n.to_owned(),
            None => {
                let mut s = String::new();
                s.append("0x");
                push_hex_upper_pad(&mut s, self.0 as u64, 4);
                s
            },
        }
    }
}

} // verus!
