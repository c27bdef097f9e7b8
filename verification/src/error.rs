//! Protocol-level errors: decode/encode failures and non-OK response codes.
use vstd::prelude::*;
use vstd::string::StringExecFns;
use crate::consts::{RespCode, name_view};
use crate::decimal::{dec, hex_lower, push_dec, push_hex_lower};

verus! {

/// Decode/encode failures raised by the wire codec.
#[derive(Debug, Clone, PartialEq, Eq)]
pub enum ProtoError {
    /// Not enough bytes remained to satisfy a read.
    Truncated { need: usize, have: usize },
    /// A PTP string payload could not be interpreted.
    BadString(String),
    /// A PTP datetime matched none of the accepted forms; carries the input.
    BadDate(String),
    /// A bulk container `Type` field outside 1..=4.
    BadContainerType(u16),
    /// A data-type selector the codec does not implement.
    Unsupported(&'static str),
}

/// What a [`ProtoError`] says, with its text payloads as character sequences.
pub enum ProtoErrorView {
    Truncated { need: usize, have: usize },
    BadString(Seq<char>),
    BadDate(Seq<char>),
    BadContainerType(u16),
    Unsupported(Seq<char>),
}

impl View for ProtoError {
    type V = ProtoErrorView;

    open spec fn view(&self) -> ProtoErrorView {
        match self {
            ProtoError::Truncated { need, have } => ProtoErrorView::Truncated { need: *need, have: *have },
            ProtoError::BadString(s) => ProtoErrorView::BadString(s@),
            ProtoError::BadDate(s) => ProtoErrorView::BadDate(s@),
            ProtoError::BadContainerType(t) => ProtoErrorView::BadContainerType(*t),
            ProtoError::Unsupported(w) => ProtoErrorView::Unsupported(w@),
        }
    }
}

/// The rendered text of a [`ProtoError`].
pub open spec fn proto_error_text(e: ProtoErrorView) -> Seq<char> {
    match e {
        ProtoErrorView::Truncated { need, have } =>
            "truncated: need "@ + dec(need as nat) + " bytes, have "@ + dec(have as nat),
        ProtoErrorView::BadString(s) => "bad string: "@ + s,
        ProtoErrorView::BadDate(s) => "bad datetime: "@ + s,
        ProtoErrorView::BadContainerType(t) => "bad container type "@ + dec(t as nat),
        ProtoErrorView::Unsupported(what) => "unsupported: "@ + what,
    }
}

impl ProtoError {
    /// The error's message text.
    pub fn to_string(&self) -> (s: String)
        ensures
            s@ == proto_error_text(self@),
    {
        let mut s = String::new();
        match self {
            ProtoError::Truncated { need, have } => {
                s.append("truncated: need ");
                push_dec(&mut s, *need as u64);
                s.append(" bytes, have ");
                push_dec(&mut s, *have as u64);
            },
            ProtoError::BadString(t) => {
                s.append("bad string: ");
                s.append(t.as_str());
            },
            ProtoError::BadDate(t) => {
                s.append("bad datetime: ");
                s.append(t.as_str());
            },
            ProtoError::BadContainerType(t) => {
                s.append("bad container type ");
                push_dec(&mut s, *t as u64);
            },
            ProtoError::Unsupported(what) => {
                s.append("unsupported: ");
                s.append(what);
            },
        }
        s
    }
}

/// A non-OK MTP response code returned in a container's `code` field.
#[derive(Debug, Clone, Copy, PartialEq, Eq)]
pub struct RcError(pub RespCode);

/// The response-code name table behind [`RcError`]'s text. `0xA805` has no
/// name.
pub open spec fn rc_name_spec(code: u16) -> Option<Seq<char>> {
    match code {
        0x2000u16 => Some("Undefined"@),
        0x2001u16 => Some("OK"@),
        0x2002u16 => Some("GeneralError"@),
        0x2003u16 => Some("SessionNotOpen"@),
        0x2004u16 => Some("InvalidTransactionID"@),
        0x2005u16 => Some("OperationNotSupported"@),
        0x2006u16 => Some("ParameterNotSupported"@),
        0x2007u16 => Some("IncompleteTransfer"@),
        0x2008u16 => Some("InvalidStorageId"@),
        0x2009u16 => Some("InvalidObjectHandle"@),
        0x200Au16 => Some("DevicePropNotSupported"@),
        0x200Bu16 => Some("InvalidObjectFormatCode"@),
        0x200Cu16 => Some("StoreFull"@),
        0x200Du16 => Some("ObjectWriteProtected"@),
        0x200Eu16 => Some("StoreReadOnly"@),
        0x200Fu16 => Some("AccessDenied"@),
        0x2010u16 => Some("NoThumbnailPresent"@),
        0x2011u16 => Some("SelfTestFailed"@),
        0x2012u16 => Some("PartialDeletion"@),
        0x2013u16 => Some("StoreNotAvailable"@),
        0x2014u16 => Some("SpecificationByFormatUnsupported"@),
        0x2015u16 => Some("NoValidObjectInfo"@),
        0x2016u16 => Some("InvalidCodeFormat"@),
        0x2017u16 => Some("UnknownVendorCode"@),
        0x2018u16 => Some("CaptureAlreadyTerminated"@),
        0x2019u16 => Some("DeviceBusy"@),
        0x201Au16 => Some("InvalidParentObject"@),
        0x201Bu16 => Some("InvalidDevicePropFormat"@),
        0x201Cu16 => Some("InvalidDevicePropValue"@),
        0x201Du16 => Some("InvalidParameter"@),
        0x201Eu16 => Some("SessionAlreadyOpened"@),
        0x201Fu16 => Some("TransactionCanceled"@),
        0x2020u16 => Some("SpecificationOfDestinationUnsupported"@),
        0x2021u16 => Some("InvalidEnumHandle"@),
        0x2022u16 => Some("NoStreamEnabled"@),
        0x2023u16 => Some("InvalidDataSet"@),
        0xA121u16 => Some("MTP_Invalid_WFC_Syntax"@),
        0xA122u16 => Some("MTP_WFC_Version_Not_Supported"@),
        0xA171u16 => Some("MTP_Media_Session_Limit_Reached"@),
        0xA172u16 => Some("MTP_No_More_Data"@),
        0xA800u16 => Some("MTP_Undefined"@),
        0xA801u16 => Some("MTP_Invalid_ObjectPropCode"@),
        0xA802u16 => Some("MTP_Invalid_ObjectProp_Format"@),
        0xA803u16 => Some("MTP_Invalid_ObjectProp_Value"@),
        0xA804u16 => Some("MTP_Invalid_ObjectReference"@),
        0xA806u16 => Some("MTP_Invalid_Dataset"@),
        0xA807u16 => Some("MTP_Specification_By_Group_Unsupported"@),
        0xA808u16 => Some("MTP_Specification_By_Depth_Unsupported"@),
        0xA809u16 => Some("MTP_Object_Too_Large"@),
        0xA80Au16 => Some("MTP_ObjectProp_Not_Supported"@),
        _ => None,
    }
}

/// The text of a response-code error: the code's name when the table has
/// one, else `RetCode ` and the code in lowercase hex without leading zeros.
pub open spec fn rc_error_text(code: u16) -> Seq<char> {
    match rc_name_spec(code) {
        Some(n) => n,
        None => "RetCode "@ + hex_lower(code as nat),
    }
}

impl RcError {
    /// The raw 16-bit response code.
    pub fn code(&self) -> (c: u16)
        ensures
            c == self.0.0,
    {
        (self.0).0
    }

    /// The error's message text (see [`rc_error_text`]).
    pub fn to_string(&self) -> (s: String)
        ensures
            s@ == rc_error_text(self.0.0),
    {
        let code = (self.0).0;
        match rc_name(code) {
            Some(name) => name.to_owned(),
            None => {
                let mut s = String::new();
                s.append("RetCode ");
                push_hex_lower(&mut s, code as u64);
                s
            },
        }
    }
}

/// Response code to its name, or `None` where the table has none.
pub fn rc_name(code: u16) -> (r: Option<&'static str>)
    ensures
        name_view(r) == rc_name_spec(code),
{
    match code {
        0x2000 => Some("Undefined"),
        0x2001 => Some("OK"),
        0x2002 => Some("GeneralError"),
        0x2003 => Some("SessionNotOpen"),
        0x2004 => Some("InvalidTransactionID"),
        0x2005 => Some("OperationNotSupported"),
        0x2006 => Some("ParameterNotSupported"),
        0x2007 => Some("IncompleteTransfer"),
        0x2008 => Some("InvalidStorageId"),
        0x2009 => Some("InvalidObjectHandle"),
        0x200A => Some("DevicePropNotSupported"),
        0x200B => Some("InvalidObjectFormatCode"),
        0x200C => Some("StoreFull"),
        0x200D => Some("ObjectWriteProtected"),
        0x200E => Some("StoreReadOnly"),
        0x200F => Some("AccessDenied"),
        0x2010 => Some("NoThumbnailPresent"),
        0x2011 => Some("SelfTestFailed"),
        0x2012 => Some("PartialDeletion"),
        0x2013 => Some("StoreNotAvailable"),
        0x2014 => Some("SpecificationByFormatUnsupported"),
        0x2015 => Some("NoValidObjectInfo"),
        0x2016 => Some("InvalidCodeFormat"),
        0x2017 => Some("UnknownVendorCode"),
        0x2018 => Some("CaptureAlreadyTerminated"),
        0x2019 => Some("DeviceBusy"),
        0x201A => Some("InvalidParentObject"),
        0x201B => Some("InvalidDevicePropFormat"),
        0x201C => Some("InvalidDevicePropValue"),
        0x201D => Some("InvalidParameter"),
        0x201E => Some("SessionAlreadyOpened"),
        0x201F => Some("TransactionCanceled"),
        0x2020 => Some("SpecificationOfDestinationUnsupported"),
        0x2021 => Some("InvalidEnumHandle"),
        0x2022 => Some("NoStreamEnabled"),
        0x2023 => Some("InvalidDataSet"),
        0xA121 => Some("MTP_Invalid_WFC_Syntax"),
        0xA122 => Some("MTP_WFC_Version_Not_Supported"),
        0xA171 => Some("MTP_Media_Session_Limit_Reached"),
        0xA172 => Some("MTP_No_More_Data"),
        0xA800 => Some("MTP_Undefined"),
        0xA801 => Some("MTP_Invalid_ObjectPropCode"),
        0xA802 => Some("MTP_Invalid_ObjectProp_Format"),
        0xA803 => Some("MTP_Invalid_ObjectProp_Value"),
        0xA804 => Some("MTP_Invalid_ObjectReference"),
        0xA806 => Some("MTP_Invalid_Dataset"),
        0xA807 => Some("MTP_Specification_By_Group_Unsupported"),
        0xA808 => Some("MTP_Specification_By_Depth_Unsupported"),
        0xA809 => Some("MTP_Object_Too_Large"),
        0xA80A => Some("MTP_ObjectProp_Not_Supported"),
        _ => None,
    }
}

} // verus!
