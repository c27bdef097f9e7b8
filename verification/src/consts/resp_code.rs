use vstd::prelude::*;
use vstd::string::StringExecFns;
use crate::decimal::push_hex_upper_pad;
use super::{name_view, display16};

verus! {

/// return code (`RC_*`).
#[derive(Clone, Copy, PartialEq, Eq, Hash, PartialOrd, Ord, Debug)]
pub struct RespCode(pub u16);

/// The spec name of each `RespCode` value that has one.
pub open spec fn resp_code_name(c: u16) -> Option<Seq<char>> {
    match c {
        0x2000u16 => Some("Undefined"@),
        0x2001u16 => Some("OK"@),
        0x2002u16 => Some("GeneralError"@),
        0x2003u16 => Some("SessionNotOpen"@),
        0x2004u16 => Some("InvalidTransactionID"@),
        0x2005u16 => Some("OperationNotSupported"@),
        0x2006u16 => Some("ParameterNotSupported"@),
        0x2007u16 => Some("IncompleteTransfer"@),
        0x2008u16 => Some("InvalidStorageId"@),
        0x2009u16 => Some("InvalidObjectHandle"@),
        0x200Au16 => Some("DevicePropNotSupported"@),
        0x200Bu16 => Some("InvalidObjectFormatCode"@),
        0x200Cu16 => Some("StoreFull"@),
        0x200Du16 => Some("ObjectWriteProtected"@),
        0x200Eu16 => Some("StoreReadOnly"@),
        0x200Fu16 => Some("AccessDenied"@),
        0x2010u16 => Some("NoThumbnailPresent"@),
        0x2011u16 => Some("SelfTestFailed"@),
        0x2012u16 => Some("PartialDeletion"@),
        0x2013u16 => Some("StoreNotAvailable"@),
        0x2014u16 => Some("SpecificationByFormatUnsupported"@),
        0x2015u16 => Some("NoValidObjectInfo"@),
        0x2016u16 => Some("InvalidCodeFormat"@),
        0x2017u16 => Some("UnknownVendorCode"@),
        0x2018u16 => Some("CaptureAlreadyTerminated"@),
        0x2019u16 => Some("DeviceBusy"@),
        0x201Au16 => Some("InvalidParentObject"@),
        0x201Bu16 => Some("InvalidDevicePropFormat"@),
        0x201Cu16 => Some("InvalidDevicePropValue"@),
        0x201Du16 => Some("InvalidParameter"@),
        0x201Eu16 => Some("SessionAlreadyOpened"@),
        0x201Fu16 => Some("TransactionCanceled"@),
        0x2020u16 => Some("SpecificationOfDestinationUnsupported"@),
        0x2021u16 => Some("InvalidEnumHandle"@),
        0x2022u16 => Some("NoStreamEnabled"@),
        0x2023u16 => Some("InvalidDataSet"@),
        0xA121u16 => Some("MTP_Invalid_WFC_Syntax"@),
        0xA122u16 => Some("MTP_WFC_Version_Not_Supported"@),
        0xA171u16 => Some("MTP_Media_Session_Limit_Reached"@),
        0xA172u16 => Some("MTP_No_More_Data"@),
        0xA800u16 => Some("MTP_Undefined"@),
        0xA801u16 => Some("MTP_Invalid_ObjectPropCode"@),
        0xA802u16 => Some("MTP_Invalid_ObjectProp_Format"@),
        0xA803u16 => Some("MTP_Invalid_ObjectProp_Value"@),
        0xA804u16 => Some("MTP_Invalid_ObjectReference"@),
        0xA806u16 => Some("MTP_Invalid_Dataset"@),
        0xA807u16 => Some("MTP_Specification_By_Group_Unsupported"@),
        0xA808u16 => Some("MTP_Specification_By_Depth_Unsupported"@),
        0xA809u16 => Some("MTP_Object_Too_Large"@),
        0xA80Au16 => Some("MTP_ObjectProp_Not_Supported"@),
        _ => None,
    }
}

impl RespCode {
    pub const UNDEFINED: u16 = 0x2000;
    pub const OK: u16 = 0x2001;
    pub const GENERAL_ERROR: u16 = 0x2002;
    pub const SESSION_NOT_OPEN: u16 = 0x2003;
    pub const INVALID_TRANSACTION_ID: u16 = 0x2004;
    pub const OPERATION_NOT_SUPPORTED: u16 = 0x2005;
    pub const PARAMETER_NOT_SUPPORTED: u16 = 0x2006;
    pub const INCOMPLETE_TRANSFER: u16 = 0x2007;
    pub const INVALID_STORAGE_ID: u16 = 0x2008;
    pub const INVALID_OBJECT_HANDLE: u16 = 0x2009;
    pub const DEVICE_PROP_NOT_SUPPORTED: u16 = 0x200A;
    pub const INVALID_OBJECT_FORMAT_CODE: u16 = 0x200B;
    pub const STORE_FULL: u16 = 0x200C;
    pub const OBJECT_WRITE_PROTECTED: u16 = 0x200D;
    pub const STORE_READ_ONLY: u16 = 0x200E;
    pub const ACCESS_DENIED: u16 = 0x200F;
    pub const NO_THUMBNAIL_PRESENT: u16 = 0x2010;
    pub const SELF_TEST_FAILED: u16 = 0x2011;
    pub const PARTIAL_DELETION: u16 = 0x2012;
    pub const STORE_NOT_AVAILABLE: u16 = 0x2013;
    pub const SPECIFICATION_BY_FORMAT_UNSUPPORTED: u16 = 0x2014;
    pub const NO_VALID_OBJECT_INFO: u16 = 0x2015;
    pub const INVALID_CODE_FORMAT: u16 = 0x2016;
    pub const UNKNOWN_VENDOR_CODE: u16 = 0x2017;
    pub const CAPTURE_ALREADY_TERMINATED: u16 = 0x2018;
    pub const DEVICE_BUSY: u16 = 0x2019;
    pub const INVALID_PARENT_OBJECT: u16 = 0x201A;
    pub const INVALID_DEVICE_PROP_FORMAT: u16 = 0x201B;
    pub const INVALID_DEVICE_PROP_VALUE: u16 = 0x201C;
    pub const INVALID_PARAMETER: u16 = 0x201D;
    pub const SESSION_ALREADY_OPENED: u16 = 0x201E;
    pub const TRANSACTION_CANCELED: u16 = 0x201F;
    pub const SPECIFICATION_OF_DESTINATION_UNSUPPORTED: u16 = 0x2020;
    pub const INVALID_ENUM_HANDLE: u16 = 0x2021;
    pub const NO_STREAM_ENABLED: u16 = 0x2022;
    pub const INVALID_DATA_SET: u16 = 0x2023;
    pub const CANON_UNKNOWN_COMMAND: u16 = 0xA001;
    pub const EK_FILENAME_REQUIRED: u16 = 0xA001;
    pub const NIKON_HARDWARE_ERROR: u16 = 0xA001;
    pub const EK_FILENAME_CONFLICTS: u16 = 0xA002;
    pub const NIKON_OUT_OF_FOCUS: u16 = 0xA002;
    pub const EK_FILENAME_INVALID: u16 = 0xA003;
    pub const NIKON_CHANGE_CAMERA_MODE_FAILED: u16 = 0xA003;
    pub const NIKON_INVALID_STATUS: u16 = 0xA004;
    pub const CANON_OPERATION_REFUSED: u16 = 0xA005;
    pub const NIKON_SET_PROPERTY_NOT_SUPPORTED: u16 = 0xA005;
    pub const CANON_LENS_COVER: u16 = 0xA006;
    pub const NIKON_WB_RESET_ERROR: u16 = 0xA006;
    pub const NIKON_DUST_REFERENCE_ERROR: u16 = 0xA007;
    pub const NIKON_SHUTTER_SPEED_BULB: u16 = 0xA008;
    pub const CANON_A009: u16 = 0xA009;
    pub const NIKON_MIRROR_UP_SEQUENCE: u16 = 0xA009;
    pub const NIKON_CAMERA_MODE_NOT_ADJUST_F_NUMBER: u16 = 0xA00A;
    pub const NIKON_NOT_LIVE_VIEW: u16 = 0xA00B;
    pub const NIKON_MF_DRIVE_STEP_END: u16 = 0xA00C;
    pub const NIKON_MF_DRIVE_STEP_INSUFFICIENCY: u16 = 0xA00E;
    pub const NIKON_ADVANCED_TRANSFER_CANCEL: u16 = 0xA022;
    pub const CANON_BATTERY_LOW: u16 = 0xA101;
    pub const CANON_NOT_READY: u16 = 0xA102;
    pub const MTP_INVALID_WFC_SYNTAX: u16 = 0xA121;
    pub const MTP_WFC_VERSION_NOT_SUPPORTED: u16 = 0xA122;
    pub const MTP_MEDIA_SESSION_LIMIT_REACHED: u16 = 0xA171;
    pub const MTP_NO_MORE_DATA: u16 = 0xA172;
    pub const MTP_UNDEFINED: u16 = 0xA800;
    pub const MTP_INVALID_OBJECT_PROP_CODE: u16 = 0xA801;
    pub const MTP_INVALID_OBJECT_PROP_FORMAT: u16 = 0xA802;
    pub const MTP_INVALID_OBJECT_PROP_VALUE: u16 = 0xA803;
    pub const MTP_INVALID_OBJECT_REFERENCE: u16 = 0xA804;
    pub const MTP_INVALID_DATASET: u16 = 0xA806;
    pub const MTP_SPECIFICATION_BY_GROUP_UNSUPPORTED: u16 = 0xA807;
    pub const MTP_SPECIFICATION_BY_DEPTH_UNSUPPORTED: u16 = 0xA808;
    pub const MTP_OBJECT_TOO_LARGE: u16 = 0xA809;
    pub const MTP_OBJECT_PROP_NOT_SUPPORTED: u16 = 0xA80A;

    /// The spec name of this value, or `None` where the table has none.
    pub fn name(self) -> (r: Option<&'static str>)
        ensures
            name_view(r) == resp_code_name(self.0),
    {
        match self.0 {
            0x2000 => Some("Undefined"),
            0x2001 => Some("OK"),
            0x2002 => Some("GeneralError"),
            0x2003 => Some("SessionNotOpen"),
            0x2004 => Some("InvalidTransactionID"),
            0x2005 => Some("OperationNotSupported"),
            0x2006 => Some("ParameterNotSupported"),
            0x2007 => Some("IncompleteTransfer"),
            0x2008 => Some("InvalidStorageId"),
            0x2009 => Some("InvalidObjectHandle"),
            0x200A => Some("DevicePropNotSupported"),
            0x200B => Some("InvalidObjectFormatCode"),
            0x200C => Some("StoreFull"),
            0x200D => Some("ObjectWriteProtected"),
            0x200E => Some("StoreReadOnly"),
            0x200F => Some("AccessDenied"),
            0x2010 => Some("NoThumbnailPresent"),
            0x2011 => Some("SelfTestFailed"),
            0x2012 => Some("PartialDeletion"),
            0x2013 => Some("StoreNotAvailable"),
            0x2014 => Some("SpecificationByFormatUnsupported"),
            0x2015 => Some("NoValidObjectInfo"),
            0x2016 => Some("InvalidCodeFormat"),
            0x2017 => Some("UnknownVendorCode"),
            0x2018 => Some("CaptureAlreadyTerminated"),
            0x2019 => Some("DeviceBusy"),
            0x201A => Some("InvalidParentObject"),
            0x201B => Some("InvalidDevicePropFormat"),
            0x201C => Some("InvalidDevicePropValue"),
            0x201D => Some("InvalidParameter"),
            0x201E => Some("SessionAlreadyOpened"),
            0x201F => Some("TransactionCanceled"),
            0x2020 => Some("SpecificationOfDestinationUnsupported"),
            0x2021 => Some("InvalidEnumHandle"),
            0x2022 => Some("NoStreamEnabled"),
            0x2023 => Some("InvalidDataSet"),
            0xA121 => Some("MTP_Invalid_WFC_Syntax"),
            0xA122 => Some("MTP_WFC_Version_Not_Supported"),
            0xA171 => Some("MTP_Media_Session_Limit_Reached"),
            0xA172 => Some("MTP_No_More_Data"),
            0xA800 => Some("MTP_Undefined"),
            0xA801 => Some("MTP_Invalid_ObjectPropCode"),
            0xA802 => Some("MTP_Invalid_ObjectProp_Format"),
            0xA803 => Some("MTP_Invalid_ObjectProp_Value"),
            0xA804 => Some("MTP_Invalid_ObjectReference"),
            0xA806 => Some("MTP_Invalid_Dataset"),
            0xA807 => Some("MTP_Specification_By_Group_Unsupported"),
            0xA808 => Some("MTP_Specification_By_Depth_Unsupported"),
            0xA809 => Some("MTP_Object_Too_Large"),
            0xA80A => Some("MTP_ObjectProp_Not_Supported"),
            _ => None,
        }
    }

    /// The spec name, else the value as `0x` and 4 uppercase hex digits.
    pub fn to_string(&self) -> (s: String)
        ensures
            s@ == display16(resp_code_name(self.0), self.0),
    {
        match self.name() {
            Some(n) => n.to_owned(),
            None => {
                let mut s = String::new();
                s.append("0x");
                push_hex_upper_pad(&mut s, self.0 as u64, 4);
                s
            },
        }
    }
}

} // verus!
