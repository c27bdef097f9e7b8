//! The DeviceInfo dataset.
use vstd::prelude::*;
use crate::error::{ProtoError, ProtoErrorView};
use super::reader::{
    get_str, get_u16, get_u16_array, get_u32, get_u32_array, get_u64, get_u8, rd_str, rd_u16,
    rd_u16_array, rd_u32, rd_u32_array, rd_u64, rd_u8,
};

verus! {

/// The device description a GetDeviceInfo reply carries.
#[derive(Clone, Debug, PartialEq)]
pub struct DeviceInfo {
    pub standard_version: u16,
    pub mtp_vendor_extension_id: u32,
    pub mtp_version: u16,
    pub mtp_extension: String,
    pub functional_mode: u16,
    pub operations_supported: Vec<u16>,
    pub events_supported: Vec<u16>,
    pub device_properties_supported: Vec<u16>,
    pub capture_formats: Vec<u16>,
    pub playback_formats: Vec<u16>,
    pub manufacturer: String,
    pub model: String,
    pub device_version: String,
    pub serial_number: String,
}

/// A [`DeviceInfo`] with its strings and arrays as sequences.
pub struct DeviceInfoView {
    pub standard_version: u16,
    pub mtp_vendor_extension_id: u32,
    pub mtp_version: u16,
    pub mtp_extension: Seq<char>,
    pub functional_mode: u16,
    pub operations_supported: Seq<u16>,
    pub events_supported: Seq<u16>,
    pub device_properties_supported: Seq<u16>,
    pub capture_formats: Seq<u16>,
    pub playback_formats: Seq<u16>,
    pub manufacturer: Seq<char>,
    pub model: Seq<char>,
    pub device_version: Seq<char>,
    pub serial_number: Seq<char>,
}

impl View for DeviceInfo {
    type V = DeviceInfoView;

    open spec fn view(&self) -> DeviceInfoView {
        DeviceInfoView {
            standard_version: self.standard_version,
            mtp_vendor_extension_id: self.mtp_vendor_extension_id,
            mtp_version: self.mtp_version,
            mtp_extension: self.mtp_extension@,
            functional_mode: self.functional_mode,
            operations_supported: self.operations_supported@,
            events_supported: self.events_supported@,
            device_properties_supported: self.device_properties_supported@,
            capture_formats: self.capture_formats@,
            playback_formats: self.playback_formats@,
            manufacturer: self.manufacturer@,
            model: self.model@,
            device_version: self.device_version@,
            serial_number: self.serial_number@,
        }
    }
}

impl Default for DeviceInfo {
    /// Every number zero, every string and array empty, every date absent.
    fn default() -> (d: Self)
        ensures
            d.standard_version == 0,
            d.mtp_vendor_extension_id == 0,
            d.mtp_version == 0,
            d.mtp_extension@.len() == 0,
            d.functional_mode == 0,
            d.operations_supported@.len() == 0,
            d.events_supported@.len() == 0,
            d.device_properties_supported@.len() == 0,
            d.capture_formats@.len() == 0,
            d.playback_formats@.len() == 0,
            d.manufacturer@.len() == 0,
            d.model@.len() == 0,
            d.device_version@.len() == 0,
            d.serial_number@.len() == 0,
    {
        DeviceInfo {
            standard_version: 0,
            mtp_vendor_extension_id: 0,
            mtp_version: 0,
            mtp_extension: String::new(),
            functional_mode: 0,
            operations_supported: Vec::new(),
            events_supported: Vec::new(),
            device_properties_supported: Vec::new(),
            capture_formats: Vec::new(),
            playback_formats: Vec::new(),
            manufacturer: String::new(),
            model: String::new(),
            device_version: String::new(),
            serial_number: String::new(),
        }
    }
}

/// Reading a [`DeviceInfo`]: each field in wire order.
pub open spec fn device_info_read(b: Seq<u8>) -> Result<(DeviceInfoView, Seq<u8>), ProtoErrorView> {
    match rd_u16(b) {
        Err(e) => Err(e),
        Ok((standard_version, b1)) => 
            match rd_u32(b1) {
                Err(e) => Err(e),
                Ok((mtp_vendor_extension_id, b2)) => 
                    match rd_u16(b2) {
                        Err(e) => Err(e),
                        Ok((mtp_version, b3)) => 
                            match rd_str(b3) {
                                Err(e) => Err(e),
                                Ok((mtp_extension, b4)) => 
                                    match rd_u16(b4) {
                                        Err(e) => Err(e),
                                        Ok((functional_mode, b5)) => 
                                            match rd_u16_array(b5) {
                                                Err(e) => Err(e),
                                                Ok((operations_supported, b6)) => 
                                                    match rd_u16_array(b6) {
                                                        Err(e) => Err(e),
                                                        Ok((events_supported, b7)) => 
                                                            match rd_u16_array(b7) {
                                                                Err(e) => Err(e),
                                                                Ok((device_properties_supported, b8)) => 
                                                                    match rd_u16_array(b8) {
                                                                        Err(e) => Err(e),
                                                                        Ok((capture_formats, b9)) => 
                                                                            match rd_u16_array(b9) {
                                                                                Err(e) => Err(e),
                                                                                Ok((playback_formats, b10)) => 
                                                                                    match rd_str(b10) {
                                                                                        Err(e) => Err(e),
                                                                                        Ok((manufacturer, b11)) => 
                                                                                            match rd_str(b11) {
                                                                                                Err(e) => Err(e),
                                                                                                Ok((model, b12)) => 
                                                                                                    match rd_str(b12) {
                                                                                                        Err(e) => Err(e),
                                                                                                        Ok((device_version, b13)) => 
                                                                                                            match rd_str(b13) {
                                                                                                                Err(e) => Err(e),
                                                                                                                Ok((serial_number, b14)) => Ok((
                                                                                                                    DeviceInfoView {
                                                                                                                        standard_version,
                                                                                                                        mtp_vendor_extension_id,
                                                                                                                        mtp_version,
                                                                                                                        mtp_extension,
                                                                                                                        functional_mode,
                                                                                                                        operations_supported,
                                                                                                                        events_supported,
                                                                                                                        device_properties_supported,
                                                                                                                        capture_formats,
                                                                                                                        playback_formats,
                                                                                                                        manufacturer,
                                                                                                                        model,
                                                                                                                        device_version,
                                                                                                                        serial_number,
                                                                                                                    }, b14)),
                                                                                                                },
                                                                                                        },
                                                                                                },
                                                                                        },
                                                                                },
                                                                        },
                                                                },
                                                        },
                                                },
                                        },
                                },
                        },
                },
        }
}

impl DeviceInfo {
    /// Decode a [`DeviceInfo`] (see [`device_info_read`]).
    pub fn decode(buf: &mut &[u8]) -> (r: Result<Self, ProtoError>)
        ensures
            match device_info_read(old(buf)@) {
                Ok((v, rest)) => r matches Ok(d) && d@ == v && final(buf)@ == rest,
                Err(e) => r matches Err(x) && x@ == e,
            },
    {
        let standard_version = match get_u16(buf) {
            Ok(v) => v,
            Err(e) => return Err(e),
        };
        let mtp_vendor_extension_id = match get_u32(buf) {
            Ok(v) => v,
            Err(e) => return Err(e),
        };
        let mtp_version = match get_u16(buf) {
            Ok(v) => v,
            Err(e) => return Err(e),
        };
        let mtp_extension = match get_str(buf) {
            Ok(v) => v,
            Err(e) => return Err(e),
        };
        let functional_mode = match get_u16(buf) {
            Ok(v) => v,
            Err(e) => return Err(e),
        };
        let operations_supported = match get_u16_array(buf) {
            Ok(v) => v,
            Err(e) => return Err(e),
        };
        let events_supported = match get_u16_array(buf) {
            Ok(v) => v,
            Err(e) => return Err(e),
        };
        let device_properties_supported = match get_u16_array(buf) {
            Ok(v) => v,
            Err(e) => return Err(e),
        };
        let capture_formats = match get_u16_array(buf) {
            Ok(v) => v,
            Err(e) => return Err(e),
        };
        let playback_formats = match get_u16_array(buf) {
            Ok(v) => v,
            Err(e) => return Err(e),
        };
        let manufacturer = match get_str(buf) {
            Ok(v) => v,
            Err(e) => return Err(e),
        };
        let model = match get_str(buf) {
            Ok(v) => v,
            Err(e) => return Err(e),
        };
        let device_version = match get_str(buf) {
            Ok(v) => v,
            Err(e) => return Err(e),
        };
        let serial_number = match get_str(buf) {
            Ok(v) => v,
            Err(e) => return Err(e),
        };
        Ok(DeviceInfo {
            standard_version,
            mtp_vendor_extension_id,
            mtp_version,
            mtp_extension,
            functional_mode,
            operations_supported,
            events_supported,
            device_properties_supported,
            capture_formats,
            playback_formats,
            manufacturer,
            model,
            device_version,
            serial_number,
        })
    }
}

} // verus!
