//! PTP/MTP protocol constants: `u16`/`u32` code newtypes, each with the table
//! of spec names that `name()` and `to_string()` read.
use vstd::prelude::*;
use crate::decimal::hex_upper_pad;

mod op_code;
mod resp_code;
mod event_code;
mod object_format;
mod device_prop_code;
mod object_prop_code;
mod data_type;
mod storage_type;
mod filesystem_type;
mod access_capability;
mod association_type;
mod directionality;
mod device_prop_form_flag;
mod device_prop_get_set;
mod ptp_error_code;
mod nikon_const;
mod object_prop_form_flag;
mod protection_status;
mod usb_container;
mod get_object_handles;
mod handler;
mod vendor;

pub use op_code::{OpCode, op_code_name};
pub use resp_code::{RespCode, resp_code_name};
pub use event_code::{EventCode, event_code_name};
pub use object_format::{ObjectFormat, object_format_name};
pub use device_prop_code::{DevicePropCode, device_prop_code_name};
pub use object_prop_code::{ObjectPropCode, object_prop_code_name};
pub use data_type::{DataType, data_type_name};
pub use storage_type::{StorageType, storage_type_name};
pub use filesystem_type::{FilesystemType, filesystem_type_name};
pub use access_capability::{AccessCapability, access_capability_name};
pub use association_type::{AssociationType, association_type_name};
pub use directionality::{Directionality, directionality_name};
pub use device_prop_form_flag::{DevicePropFormFlag, device_prop_form_flag_name};
pub use device_prop_get_set::{DevicePropGetSet, device_prop_get_set_name};
pub use ptp_error_code::{PtpErrorCode, ptp_error_code_name};
pub use nikon_const::{NikonConst, nikon_const_name};
pub use object_prop_form_flag::{ObjectPropFormFlag, object_prop_form_flag_name};
pub use protection_status::{ProtectionStatus, protection_status_name};
pub use usb_container::{UsbContainer, usb_container_name};
pub use get_object_handles::{GetObjectHandles, get_object_handles_name};
pub use handler::{Handler, handler_name};
pub use vendor::{Vendor, vendor_name};

verus! {

/// A looked-up name as a character sequence.
pub open spec fn name_view(n: Option<&'static str>) -> Option<Seq<char>> {
    match n {
        Some(s) => Some(s@),
        None => None,
    }
}

/// How a 16-bit code prints: its name, else `0x` and four uppercase hex digits.
pub open spec fn display16(n: Option<Seq<char>>, v: u16) -> Seq<char> {
    match n {
        Some(s) => s,
        None => "0x"@ + hex_upper_pad(v as nat, 4),
    }
}

/// How a 32-bit selector prints: its name, else `0x` and eight uppercase hex digits.
pub open spec fn display32(n: Option<Seq<char>>, v: u32) -> Seq<char> {
    match n {
        Some(s) => s,
        None => "0x"@ + hex_upper_pad(v as nat, 8),
    }
}

/// Selects which constant group [`code_name`] resolves a `u16` in.
#[derive(Clone, Copy, PartialEq, Eq, Hash, Debug)]
pub enum CodeKind {
    Op,
    Resp,
    Event,
    ObjectFormat,
    DeviceProp,
    ObjectProp,
    DataType,
    StorageType,
    FilesystemType,
    AccessCapability,
    AssociationType,
    Directionality,
    DevicePropFormFlag,
    DevicePropGetSet,
    PtpError,
    Nikon,
    ObjectPropFormFlag,
    ProtectionStatus,
    Usb,
}

/// The spec name of `code` within the group `kind`.
pub open spec fn code_name_spec(kind: CodeKind, code: u16) -> Option<Seq<char>> {
    match kind {
        CodeKind::Op => op_code_name(code),
        CodeKind::Resp => resp_code_name(code),
        CodeKind::Event => event_code_name(code),
        CodeKind::ObjectFormat => object_format_name(code),
        CodeKind::DeviceProp => device_prop_code_name(code),
        CodeKind::ObjectProp => object_prop_code_name(code),
        CodeKind::DataType => data_type_name(code),
        CodeKind::StorageType => storage_type_name(code),
        CodeKind::FilesystemType => filesystem_type_name(code),
        CodeKind::AccessCapability => access_capability_name(code),
        CodeKind::AssociationType => association_type_name(code),
        CodeKind::Directionality => directionality_name(code),
        CodeKind::DevicePropFormFlag => device_prop_form_flag_name(code),
        CodeKind::DevicePropGetSet => device_prop_get_set_name(code),
        CodeKind::PtpError => ptp_error_code_name(code),
        CodeKind::Nikon => nikon_const_name(code),
        CodeKind::ObjectPropFormFlag => object_prop_form_flag_name(code),
        CodeKind::ProtectionStatus => protection_status_name(code),
        CodeKind::Usb => usb_container_name(code),
    }
}

/// Name lookup for the `u16` groups: the spec name of `code` within `kind`,
/// or `None` where that group's table has no entry for it. The `u32`
/// selector groups resolve through their own `name()` methods.
pub fn code_name(kind: CodeKind, code: u16) -> (r: Option<&'static str>)
    ensures
        name_view(r) == code_name_spec(kind, code),
{
    match kind {
        CodeKind::Op => OpCode(code).name(),
        CodeKind::Resp => RespCode(code).name(),
        CodeKind::Event => EventCode(code).name(),
        CodeKind::ObjectFormat => ObjectFormat(code).name(),
        CodeKind::DeviceProp => DevicePropCode(code).name(),
        CodeKind::ObjectProp => ObjectPropCode(code).name(),
        CodeKind::DataType => DataType(code).name(),
        CodeKind::StorageType => StorageType(code).name(),
        CodeKind::FilesystemType => FilesystemType(code).name(),
        CodeKind::AccessCapability => AccessCapability(code).name(),
        CodeKind::AssociationType => AssociationType(code).name(),
        CodeKind::Directionality => Directionality(code).name(),
        CodeKind::DevicePropFormFlag => DevicePropFormFlag(code).name(),
        CodeKind::DevicePropGetSet => DevicePropGetSet(code).name(),
        CodeKind::PtpError => PtpErrorCode(code).name(),
        CodeKind::Nikon => NikonConst(code).name(),
        CodeKind::ObjectPropFormFlag => ObjectPropFormFlag(code).name(),
        CodeKind::ProtectionStatus => ProtectionStatus(code).name(),
        CodeKind::Usb => UsbContainer(code).name(),
    }
}

} // verus!
