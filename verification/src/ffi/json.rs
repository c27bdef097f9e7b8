//! The JSON wire contract: the payload structs (device and storage
//! descriptions in PascalCase, listing entries in camelCase, the lowercase
//! `fullpath` of existence checks) and one result builder per operation.
use vstd::prelude::*;
use vstd::string::StringExecFns;
use crate::datasets::{DeviceInfo, DeviceInfoView};
use crate::datetime::{civil_from_days, civil_from_days_spec};
use crate::decimal::{dec, dec_pad, dec_signed, push_dec, push_dec_pad, push_dec_signed};
use crate::mtp::UsbInfo;
use crate::strings::{char_from_u32, push_char};
use super::json_text::{
    envelope_error, envelope_ok, json_bool, json_str, json_u16_array, ok_json, push_bool,
    push_json_str, push_u16_array,
};

verus! {

/// Device description in the wire contract, keys in PascalCase.
#[derive(Clone, Debug, PartialEq, Eq)]
pub struct MtpDeviceInfo {
    pub standard_version: u16,
    pub mtp_vendor_extension_id: u32,
    pub mtp_version: u16,
    pub mtp_extension: String,
    pub functional_mode: u16,
    pub operations_supported: Vec<u16>,
    pub events_supported: Vec<u16>,
    pub device_properties_supported: Vec<u16>,
    pub capture_formats: Vec<u16>,
    pub playback_formats: Vec<u16>,
    pub manufacturer: String,
    pub model: String,
    pub device_version: String,
    pub serial_number: String,
}

/// A [`MtpDeviceInfo`] with its strings and arrays as sequences.
pub struct MtpDeviceInfoView {
    pub standard_version: u16,
    pub mtp_vendor_extension_id: u32,
    pub mtp_version: u16,
    pub mtp_extension: Seq<char>,
    pub functional_mode: u16,
    pub operations_supported: Seq<u16>,
    pub events_supported: Seq<u16>,
    pub device_properties_supported: Seq<u16>,
    pub capture_formats: Seq<u16>,
    pub playback_formats: Seq<u16>,
    pub manufacturer: Seq<char>,
    pub model: Seq<char>,
    pub device_version: Seq<char>,
    pub serial_number: Seq<char>,
}

impl View for MtpDeviceInfo {
    type V = MtpDeviceInfoView;

    open spec fn view(&self) -> MtpDeviceInfoView {
        MtpDeviceInfoView {
            standard_version: self.standard_version,
            mtp_vendor_extension_id: self.mtp_vendor_extension_id,
            mtp_version: self.mtp_version,
            mtp_extension: self.mtp_extension@,
            functional_mode: self.functional_mode,
            operations_supported: self.operations_supported@,
            events_supported: self.events_supported@,
            device_properties_supported: self.device_properties_supported@,
            capture_formats: self.capture_formats@,
            playback_formats: self.playback_formats@,
            manufacturer: self.manufacturer@,
            model: self.model@,
            device_version: self.device_version@,
            serial_number: self.serial_number@,
        }
    }
}

/// The JSON object of a [`MtpDeviceInfo`], keys in wire order.
pub open spec fn mtp_device_info_json(v: MtpDeviceInfoView) -> Seq<char> {
    "{\"StandardVersion\":"@ + dec(v.standard_version as nat) + ",\"MTPVendorExtensionID\":"@ + dec(v.mtp_vendor_extension_id as nat) + ",\"MTPVersion\":"@ + dec(v.mtp_version as nat) + ",\"MTPExtension\":"@ + json_str(v.mtp_extension) + ",\"FunctionalMode\":"@ + dec(v.functional_mode as nat) + ",\"OperationsSupported\":"@ + json_u16_array(v.operations_supported) + ",\"EventsSupported\":"@ + json_u16_array(v.events_supported) + ",\"DevicePropertiesSupported\":"@ + json_u16_array(v.device_properties_supported) + ",\"CaptureFormats\":"@ + json_u16_array(v.capture_formats) + ",\"PlaybackFormats\":"@ + json_u16_array(v.playback_formats) + ",\"Manufacturer\":"@ + json_str(v.manufacturer) + ",\"Model\":"@ + json_str(v.model) + ",\"DeviceVersion\":"@ + json_str(v.device_version) + ",\"SerialNumber\":"@ + json_str(v.serial_number) + "}"@
}

impl MtpDeviceInfo {
    /// The JSON object text (see [`mtp_device_info_json`]).
    pub fn to_json(&self) -> (s: String)
        ensures
            s@ == mtp_device_info_json(self@),
    {
        let mut out = String::new();
        out.append("{\"StandardVersion\":");
        push_dec(&mut out, self.standard_version as u64);
        proof {
            assert(out@ =~= "{\"StandardVersion\":"@ + dec(self@.standard_version as nat));
        }
        out.append(",\"MTPVendorExtensionID\":");
        push_dec(&mut out, self.mtp_vendor_extension_id as u64);
        proof {
            assert(out@ =~= "{\"StandardVersion\":"@ + dec(self@.standard_version as nat) + ",\"MTPVendorExtensionID\":"@ + dec(self@.mtp_vendor_extension_id as nat));
        }
        out.append(",\"MTPVersion\":");
        push_dec(&mut out, self.mtp_version as u64);
        proof {
            assert(out@ =~= "{\"StandardVersion\":"@ + dec(self@.standard_version as nat) + ",\"MTPVendorExtensionID\":"@ + dec(self@.mtp_vendor_extension_id as nat) + ",\"MTPVersion\":"@ + dec(self@.mtp_version as nat));
        }
        out.append(",\"MTPExtension\":");
        push_json_str(&mut out, self.mtp_extension.as_str());
        proof {
            assert(out@ =~= "{\"StandardVersion\":"@ + dec(self@.standard_version as nat) + ",\"MTPVendorExtensionID\":"@ + dec(self@.mtp_vendor_extension_id as nat) + ",\"MTPVersion\":"@ + dec(self@.mtp_version as nat) + ",\"MTPExtension\":"@ + json_str(self@.mtp_extension));
        }
        out.append(",\"FunctionalMode\":");
        push_dec(&mut out, self.functional_mode as u64);
        proof {
            assert(out@ =~= "{\"StandardVersion\":"@ + dec(self@.standard_version as nat) + ",\"MTPVendorExtensionID\":"@ + dec(self@.mtp_vendor_extension_id as nat) + ",\"MTPVersion\":"@ + dec(self@.mtp_version as nat) + ",\"MTPExtension\":"@ + json_str(self@.mtp_extension) + ",\"FunctionalMode\":"@ + dec(self@.functional_mode as nat));
        }
        out.append(",\"OperationsSupported\":");
        push_u16_array(&mut out, self.operations_supported.as_slice());
        proof {
            assert(out@ =~= "{\"StandardVersion\":"@ + dec(self@.standard_version as nat) + ",\"MTPVendorExtensionID\":"@ + dec(self@.mtp_vendor_extension_id as nat) + ",\"MTPVersion\":"@ + dec(self@.mtp_version as nat) + ",\"MTPExtension\":"@ + json_str(self@.mtp_extension) + ",\"FunctionalMode\":"@ + dec(self@.functional_mode as nat) + ",\"OperationsSupported\":"@ + json_u16_array(self@.operations_supported));
        }
        out.append(",\"EventsSupported\":");
        push_u16_array(&mut out, self.events_supported.as_slice());
        proof {
            assert(out@ =~= "{\"StandardVersion\":"@ + dec(self@.standard_version as nat) + ",\"MTPVendorExtensionID\":"@ + dec(self@.mtp_vendor_extension_id as nat) + ",\"MTPVersion\":"@ + dec(self@.mtp_version as nat) + ",\"MTPExtension\":"@ + json_str(self@.mtp_extension) + ",\"FunctionalMode\":"@ + dec(self@.functional_mode as nat) + ",\"OperationsSupported\":"@ + json_u16_array(self@.operations_supported) + ",\"EventsSupported\":"@ + json_u16_array(self@.events_supported));
        }
        out.append(",\"DevicePropertiesSupported\":");
        push_u16_array(&mut out, self.device_properties_supported.as_slice());
        proof {
            assert(out@ =~= "{\"StandardVersion\":"@ + dec(self@.standard_version as nat) + ",\"MTPVendorExtensionID\":"@ + dec(self@.mtp_vendor_extension_id as nat) + ",\"MTPVersion\":"@ + dec(self@.mtp_version as nat) + ",\"MTPExtension\":"@ + json_str(self@.mtp_extension) + ",\"FunctionalMode\":"@ + dec(self@.functional_mode as nat) + ",\"OperationsSupported\":"@ + json_u16_array(self@.operations_supported) + ",\"EventsSupported\":"@ + json_u16_array(self@.events_supported) + ",\"DevicePropertiesSupported\":"@ + json_u16_array(self@.device_properties_supported));
        }
        out.append(",\"CaptureFormats\":");
        push_u16_array(&mut out, self.capture_formats.as_slice());
        proof {
            assert(out@ =~= "{\"StandardVersion\":"@ + dec(self@.standard_version as nat) + ",\"MTPVendorExtensionID\":"@ + dec(self@.mtp_vendor_extension_id as nat) + ",\"MTPVersion\":"@ + dec(self@.mtp_version as nat) + ",\"MTPExtension\":"@ + json_str(self@.mtp_extension) + ",\"FunctionalMode\":"@ + dec(self@.functional_mode as nat) + ",\"OperationsSupported\":"@ + json_u16_array(self@.operations_supported) + ",\"EventsSupported\":"@ + json_u16_array(self@.events_supported) + ",\"DevicePropertiesSupported\":"@ + json_u16_array(self@.device_properties_supported) + ",\"CaptureFormats\":"@ + json_u16_array(self@.capture_formats));
        }
        out.append(",\"PlaybackFormats\":");
        push_u16_array(&mut out, self.playback_formats.as_slice());
        proof {
            assert(out@ =~= "{\"StandardVersion\":"@ + dec(self@.standard_version as nat) + ",\"MTPVendorExtensionID\":"@ + dec(self@.mtp_vendor_extension_id as nat) + ",\"MTPVersion\":"@ + dec(self@.mtp_version as nat) + ",\"MTPExtension\":"@ + json_str(self@.mtp_extension) + ",\"FunctionalMode\":"@ + dec(self@.functional_mode as nat) + ",\"OperationsSupported\":"@ + json_u16_array(self@.operations_supported) + ",\"EventsSupported\":"@ + json_u16_array(self@.events_supported) + ",\"DevicePropertiesSupported\":"@ + json_u16_array(self@.device_properties_supported) + ",\"CaptureFormats\":"@ + json_u16_array(self@.capture_formats) + ",\"PlaybackFormats\":"@ + json_u16_array(self@.playback_formats));
        }
        out.append(",\"Manufacturer\":");
        push_json_str(&mut out, self.manufacturer.as_str());
        proof {
            assert(out@ =~= "{\"StandardVersion\":"@ + dec(self@.standard_version as nat) + ",\"MTPVendorExtensionID\":"@ + dec(self@.mtp_vendor_extension_id as nat) + ",\"MTPVersion\":"@ + dec(self@.mtp_version as nat) + ",\"MTPExtension\":"@ + json_str(self@.mtp_extension) + ",\"FunctionalMode\":"@ + dec(self@.functional_mode as nat) + ",\"OperationsSupported\":"@ + json_u16_array(self@.operations_supported) + ",\"EventsSupported\":"@ + json_u16_array(self@.events_supported) + ",\"DevicePropertiesSupported\":"@ + json_u16_array(self@.device_properties_supported) + ",\"CaptureFormats\":"@ + json_u16_array(self@.capture_formats) + ",\"PlaybackFormats\":"@ + json_u16_array(self@.playback_formats) + ",\"Manufacturer\":"@ + json_str(self@.manufacturer));
        }
        out.append(",\"Model\":");
        push_json_str(&mut out, self.model.as_str());
        proof {
            assert(out@ =~= "{\"StandardVersion\":"@ + dec(self@.standard_version as nat) + ",\"MTPVendorExtensionID\":"@ + dec(self@.mtp_vendor_extension_id as nat) + ",\"MTPVersion\":"@ + dec(self@.mtp_version as nat) + ",\"MTPExtension\":"@ + json_str(self@.mtp_extension) + ",\"FunctionalMode\":"@ + dec(self@.functional_mode as nat) + ",\"OperationsSupported\":"@ + json_u16_array(self@.operations_supported) + ",\"EventsSupported\":"@ + json_u16_array(self@.events_supported) + ",\"DevicePropertiesSupported\":"@ + json_u16_array(self@.device_properties_supported) + ",\"CaptureFormats\":"@ + json_u16_array(self@.capture_formats) + ",\"PlaybackFormats\":"@ + json_u16_array(self@.playback_formats) + ",\"Manufacturer\":"@ + json_str(self@.manufacturer) + ",\"Model\":"@ + json_str(self@.model));
        }
        out.append(",\"DeviceVersion\":");
        push_json_str(&mut out, self.device_version.as_str());
        proof {
            assert(out@ =~= "{\"StandardVersion\":"@ + dec(self@.standard_version as nat) + ",\"MTPVendorExtensionID\":"@ + dec(self@.mtp_vendor_extension_id as nat) + ",\"MTPVersion\":"@ + dec(self@.mtp_version as nat) + ",\"MTPExtension\":"@ + json_str(self@.mtp_extension) + ",\"FunctionalMode\":"@ + dec(self@.functional_mode as nat) + ",\"OperationsSupported\":"@ + json_u16_array(self@.operations_supported) + ",\"EventsSupported\":"@ + json_u16_array(self@.events_supported) + ",\"DevicePropertiesSupported\":"@ + json_u16_array(self@.device_properties_supported) + ",\"CaptureFormats\":"@ + json_u16_array(self@.capture_formats) + ",\"PlaybackFormats\":"@ + json_u16_array(self@.playback_formats) + ",\"Manufacturer\":"@ + json_str(self@.manufacturer) + ",\"Model\":"@ + json_str(self@.model) + ",\"DeviceVersion\":"@ + json_str(self@.device_version));
        }
        out.append(",\"SerialNumber\":");
        push_json_str(&mut out, self.serial_number.as_str());
        proof {
            assert(out@ =~= "{\"StandardVersion\":"@ + dec(self@.standard_version as nat) + ",\"MTPVendorExtensionID\":"@ + dec(self@.mtp_vendor_extension_id as nat) + ",\"MTPVersion\":"@ + dec(self@.mtp_version as nat) + ",\"MTPExtension\":"@ + json_str(self@.mtp_extension) + ",\"FunctionalMode\":"@ + dec(self@.functional_mode as nat) + ",\"OperationsSupported\":"@ + json_u16_array(self@.operations_supported) + ",\"EventsSupported\":"@ + json_u16_array(self@.events_supported) + ",\"DevicePropertiesSupported\":"@ + json_u16_array(self@.device_properties_supported) + ",\"CaptureFormats\":"@ + json_u16_array(self@.capture_formats) + ",\"PlaybackFormats\":"@ + json_u16_array(self@.playback_formats) + ",\"Manufacturer\":"@ + json_str(self@.manufacturer) + ",\"Model\":"@ + json_str(self@.model) + ",\"DeviceVersion\":"@ + json_str(self@.device_version) + ",\"SerialNumber\":"@ + json_str(self@.serial_number));
        }
        out.append("}");
        out
    }
}

/// USB description in the wire contract; `Device` is the bcdDevice value.
#[derive(Clone, Debug, PartialEq, Eq)]
pub struct UsbDeviceInfo {
    pub id_vendor: u16,
    pub id_product: u16,
    pub device: u16,
    pub manufacturer: String,
    pub product: String,
    pub serial_number: String,
}

/// A [`UsbDeviceInfo`] with its strings and arrays as sequences.
pub struct UsbDeviceInfoView {
    pub id_vendor: u16,
    pub id_product: u16,
    pub device: u16,
    pub manufacturer: Seq<char>,
    pub product: Seq<char>,
    pub serial_number: Seq<char>,
}

impl View for UsbDeviceInfo {
    type V = UsbDeviceInfoView;

    open spec fn view(&self) -> UsbDeviceInfoView {
        UsbDeviceInfoView {
            id_vendor: self.id_vendor,
            id_product: self.id_product,
            device: self.device,
            manufacturer: self.manufacturer@,
            product: self.product@,
            serial_number: self.serial_number@,
        }
    }
}

/// The JSON object of a [`UsbDeviceInfo`], keys in wire order.
pub open spec fn usb_device_info_json(v: UsbDeviceInfoView) -> Seq<char> {
    "{\"IdVendor\":"@ + dec(v.id_vendor as nat) + ",\"IdProduct\":"@ + dec(v.id_product as nat) + ",\"Device\":"@ + dec(v.device as nat) + ",\"Manufacturer\":"@ + json_str(v.manufacturer) + ",\"Product\":"@ + json_str(v.product) + ",\"SerialNumber\":"@ + json_str(v.serial_number) + "}"@
}

impl UsbDeviceInfo {
    /// The JSON object text (see [`usb_device_info_json`]).
    pub fn to_json(&self) -> (s: String)
        ensures
            s@ == usb_device_info_json(self@),
    {
        let mut out = String::new();
        out.append("{\"IdVendor\":");
        push_dec(&mut out, self.id_vendor as u64);
        proof {
            assert(out@ =~= "{\"IdVendor\":"@ + dec(self@.id_vendor as nat));
        }
        out.append(",\"IdProduct\":");
        push_dec(&mut out, self.id_product as u64);
        proof {
            assert(out@ =~= "{\"IdVendor\":"@ + dec(self@.id_vendor as nat) + ",\"IdProduct\":"@ + dec(self@.id_product as nat));
        }
        out.append(",\"Device\":");
        push_dec(&mut out, self.device as u64);
        proof {
            assert(out@ =~= "{\"IdVendor\":"@ + dec(self@.id_vendor as nat) + ",\"IdProduct\":"@ + dec(self@.id_product as nat) + ",\"Device\":"@ + dec(self@.device as nat));
        }
        out.append(",\"Manufacturer\":");
        push_json_str(&mut out, self.manufacturer.as_str());
        proof {
            assert(out@ =~= "{\"IdVendor\":"@ + dec(self@.id_vendor as nat) + ",\"IdProduct\":"@ + dec(self@.id_product as nat) + ",\"Device\":"@ + dec(self@.device as nat) + ",\"Manufacturer\":"@ + json_str(self@.manufacturer));
        }
        out.append(",\"Product\":");
        push_json_str(&mut out, self.product.as_str());
        proof {
            assert(out@ =~= "{\"IdVendor\":"@ + dec(self@.id_vendor as nat) + ",\"IdProduct\":"@ + dec(self@.id_product as nat) + ",\"Device\":"@ + dec(self@.device as nat) + ",\"Manufacturer\":"@ + json_str(self@.manufacturer) + ",\"Product\":"@ + json_str(self@.product));
        }
        out.append(",\"SerialNumber\":");
        push_json_str(&mut out, self.serial_number.as_str());
        proof {
            assert(out@ =~= "{\"IdVendor\":"@ + dec(self@.id_vendor as nat) + ",\"IdProduct\":"@ + dec(self@.id_product as nat) + ",\"Device\":"@ + dec(self@.device as nat) + ",\"Manufacturer\":"@ + json_str(self@.manufacturer) + ",\"Product\":"@ + json_str(self@.product) + ",\"SerialNumber\":"@ + json_str(self@.serial_number));
        }
        out.append("}");
        out
    }
}

/// The `data` of Initialize and FetchDeviceInfo.
#[derive(Clone, Debug, PartialEq, Eq)]
pub struct DeviceInfoData {
    pub mtp_device_info: MtpDeviceInfo,
    pub usb_device_info: UsbDeviceInfo,
}

/// A [`DeviceInfoData`] with its strings and arrays as sequences.
pub struct DeviceInfoDataView {
    pub mtp_device_info: MtpDeviceInfoView,
    pub usb_device_info: UsbDeviceInfoView,
}

impl View for DeviceInfoData {
    type V = DeviceInfoDataView;

    open spec fn view(&self) -> DeviceInfoDataView {
        DeviceInfoDataView {
            mtp_device_info: self.mtp_device_info@,
            usb_device_info: self.usb_device_info@,
        }
    }
}

/// The JSON object of a [`DeviceInfoData`], keys in wire order.
pub open spec fn device_info_data_json(v: DeviceInfoDataView) -> Seq<char> {
    "{\"mtpDeviceInfo\":"@ + mtp_device_info_json(v.mtp_device_info) + ",\"usbDeviceInfo\":"@ + usb_device_info_json(v.usb_device_info) + "}"@
}

impl DeviceInfoData {
    /// The JSON object text (see [`device_info_data_json`]).
    pub fn to_json(&self) -> (s: String)
        ensures
            s@ == device_info_data_json(self@),
    {
        let mut out = String::new();
        out.append("{\"mtpDeviceInfo\":");
        let part = self.mtp_device_info.to_json();
        out.append(part.as_str());
        proof {
            assert(out@ =~= "{\"mtpDeviceInfo\":"@ + mtp_device_info_json(self@.mtp_device_info));
        }
        out.append(",\"usbDeviceInfo\":");
        let part = self.usb_device_info.to_json();
        out.append(part.as_str());
        proof {
            assert(out@ =~= "{\"mtpDeviceInfo\":"@ + mtp_device_info_json(self@.mtp_device_info) + ",\"usbDeviceInfo\":"@ + usb_device_info_json(self@.usb_device_info));
        }
        out.append("}");
        out
    }
}

/// Storage description in the wire contract, keys in PascalCase.
#[derive(Clone, Debug, PartialEq, Eq)]
pub struct StorageInfo {
    pub storage_type: u16,
    pub filesystem_type: u16,
    pub access_capability: u16,
    pub max_capability: u64,
    pub free_space_in_bytes: u64,
    pub free_space_in_images: u32,
    pub storage_description: String,
    pub volume_label: String,
}

/// A [`StorageInfo`] with its strings and arrays as sequences.
pub struct StorageInfoView {
    pub storage_type: u16,
    pub filesystem_type: u16,
    pub access_capability: u16,
    pub max_capability: u64,
    pub free_space_in_bytes: u64,
    pub free_space_in_images: u32,
    pub storage_description: Seq<char>,
    pub volume_label: Seq<char>,
}

impl View for StorageInfo {
    type V = StorageInfoView;

    open spec fn view(&self) -> StorageInfoView {
        StorageInfoView {
            storage_type: self.storage_type,
            filesystem_type: self.filesystem_type,
            access_capability: self.access_capability,
            max_capability: self.max_capability,
            free_space_in_bytes: self.free_space_in_bytes,
            free_space_in_images: self.free_space_in_images,
            storage_description: self.storage_description@,
            volume_label: self.volume_label@,
        }
    }
}

/// The JSON object of a [`StorageInfo`], keys in wire order.
pub open spec fn storage_info_json(v: StorageInfoView) -> Seq<char> {
    "{\"StorageType\":"@ + dec(v.storage_type as nat) + ",\"FilesystemType\":"@ + dec(v.filesystem_type as nat) + ",\"AccessCapability\":"@ + dec(v.access_capability as nat) + ",\"MaxCapability\":"@ + dec(v.max_capability as nat) + ",\"FreeSpaceInBytes\":"@ + dec(v.free_space_in_bytes as nat) + ",\"FreeSpaceInImages\":"@ + dec(v.free_space_in_images as nat) + ",\"StorageDescription\":"@ + json_str(v.storage_description) + ",\"VolumeLabel\":"@ + json_str(v.volume_label) + "}"@
}

impl StorageInfo {
    /// The JSON object text (see [`storage_info_json`]).
    pub fn to_json(&self) -> (s: String)
        ensures
            s@ == storage_info_json(self@),
    {
        let mut out = String::new();
        out.append("{\"StorageType\":");
        push_dec(&mut out, self.storage_type as u64);
        proof {
            assert(out@ =~= "{\"StorageType\":"@ + dec(self@.storage_type as nat));
        }
        out.append(",\"FilesystemType\":");
        push_dec(&mut out, self.filesystem_type as u64);
        proof {
            assert(out@ =~= "{\"StorageType\":"@ + dec(self@.storage_type as nat) + ",\"FilesystemType\":"@ + dec(self@.filesystem_type as nat));
        }
        out.append(",\"AccessCapability\":");
        push_dec(&mut out, self.access_capability as u64);
        proof {
            assert(out@ =~= "{\"StorageType\":"@ + dec(self@.storage_type as nat) + ",\"FilesystemType\":"@ + dec(self@.filesystem_type as nat) + ",\"AccessCapability\":"@ + dec(self@.access_capability as nat));
        }
        out.append(",\"MaxCapability\":");
        push_dec(&mut out, self.max_capability as u64);
        proof {
            assert(out@ =~= "{\"StorageType\":"@ + dec(self@.storage_type as nat) + ",\"FilesystemType\":"@ + dec(self@.filesystem_type as nat) + ",\"AccessCapability\":"@ + dec(self@.access_capability as nat) + ",\"MaxCapability\":"@ + dec(self@.max_capability as nat));
        }
        out.append(",\"FreeSpaceInBytes\":");
        push_dec(&mut out, self.free_space_in_bytes as u64);
        proof {
            assert(out@ =~= "{\"StorageType\":"@ + dec(self@.storage_type as nat) + ",\"FilesystemType\":"@ + dec(self@.filesystem_type as nat) + ",\"AccessCapability\":"@ + dec(self@.access_capability as nat) + ",\"MaxCapability\":"@ + dec(self@.max_capability as nat) + ",\"FreeSpaceInBytes\":"@ + dec(self@.free_space_in_bytes as nat));
        }
        out.append(",\"FreeSpaceInImages\":");
        push_dec(&mut out, self.free_space_in_images as u64);
        proof {
            assert(out@ =~= "{\"StorageType\":"@ + dec(self@.storage_type as nat) + ",\"FilesystemType\":"@ + dec(self@.filesystem_type as nat) + ",\"AccessCapability\":"@ + dec(self@.access_capability as nat) + ",\"MaxCapability\":"@ + dec(self@.max_capability as nat) + ",\"FreeSpaceInBytes\":"@ + dec(self@.free_space_in_bytes as nat) + ",\"FreeSpaceInImages\":"@ + dec(self@.free_space_in_images as nat));
        }
        out.append(",\"StorageDescription\":");
        push_json_str(&mut out, self.storage_description.as_str());
        proof {
            assert(out@ =~= "{\"StorageType\":"@ + dec(self@.storage_type as nat) + ",\"FilesystemType\":"@ + dec(self@.filesystem_type as nat) + ",\"AccessCapability\":"@ + dec(self@.access_capability as nat) + ",\"MaxCapability\":"@ + dec(self@.max_capability as nat) + ",\"FreeSpaceInBytes\":"@ + dec(self@.free_space_in_bytes as nat) + ",\"FreeSpaceInImages\":"@ + dec(self@.free_space_in_images as nat) + ",\"StorageDescription\":"@ + json_str(self@.storage_description));
        }
        out.append(",\"VolumeLabel\":");
        push_json_str(&mut out, self.volume_label.as_str());
        proof {
            assert(out@ =~= "{\"StorageType\":"@ + dec(self@.storage_type as nat) + ",\"FilesystemType\":"@ + dec(self@.filesystem_type as nat) + ",\"AccessCapability\":"@ + dec(self@.access_capability as nat) + ",\"MaxCapability\":"@ + dec(self@.max_capability as nat) + ",\"FreeSpaceInBytes\":"@ + dec(self@.free_space_in_bytes as nat) + ",\"FreeSpaceInImages\":"@ + dec(self@.free_space_in_images as nat) + ",\"StorageDescription\":"@ + json_str(self@.storage_description) + ",\"VolumeLabel\":"@ + json_str(self@.volume_label));
        }
        out.append("}");
        out
    }
}

/// One entry of the FetchStorages `data` array.
#[derive(Clone, Debug, PartialEq, Eq)]
pub struct StorageData {
    pub sid: u32,
    pub info: StorageInfo,
}

/// A [`StorageData`] with its strings and arrays as sequences.
pub struct StorageDataView {
    pub sid: u32,
    pub info: StorageInfoView,
}

impl View for StorageData {
    type V = StorageDataView;

    open spec fn view(&self) -> StorageDataView {
        StorageDataView {
            sid: self.sid,
            info: self.info@,
        }
    }
}

/// The JSON object of a [`StorageData`], keys in wire order.
pub open spec fn storage_data_json(v: StorageDataView) -> Seq<char> {
    "{\"Sid\":"@ + dec(v.sid as nat) + ",\"Info\":"@ + storage_info_json(v.info) + "}"@
}

impl StorageData {
    /// The JSON object text (see [`storage_data_json`]).
    pub fn to_json(&self) -> (s: String)
        ensures
            s@ == storage_data_json(self@),
    {
        let mut out = String::new();
        out.append("{\"Sid\":");
        push_dec(&mut out, self.sid as u64);
        proof {
            assert(out@ =~= "{\"Sid\":"@ + dec(self@.sid as nat));
        }
        out.append(",\"Info\":");
        let part = self.info.to_json();
        out.append(part.as_str());
        proof {
            assert(out@ =~= "{\"Sid\":"@ + dec(self@.sid as nat) + ",\"Info\":"@ + storage_info_json(self@.info));
        }
        out.append("}");
        out
    }
}

/// One entry of a Walk listing: `isFolder`, a preformatted `dateAdded`, `path`.
#[derive(Clone, Debug, PartialEq, Eq)]
pub struct FileInfo {
    pub size: i64,
    pub is_dir: bool,
    pub mod_time: String,
    pub name: String,
    pub full_path: String,
    pub parent_path: String,
    pub extension: String,
    pub parent_id: u32,
    pub object_id: u32,
}

/// A [`FileInfo`] with its strings and arrays as sequences.
pub struct FileInfoView {
    pub size: i64,
    pub is_dir: bool,
    pub mod_time: Seq<char>,
    pub name: Seq<char>,
    pub full_path: Seq<char>,
    pub parent_path: Seq<char>,
    pub extension: Seq<char>,
    pub parent_id: u32,
    pub object_id: u32,
}

impl View for FileInfo {
    type V = FileInfoView;

    open spec fn view(&self) -> FileInfoView {
        FileInfoView {
            size: self.size,
            is_dir: self.is_dir,
            mod_time: self.mod_time@,
            name: self.name@,
            full_path: self.full_path@,
            parent_path: self.parent_path@,
            extension: self.extension@,
            parent_id: self.parent_id,
            object_id: self.object_id,
        }
    }
}

/// The JSON object of a [`FileInfo`], keys in wire order.
pub open spec fn file_info_json(v: FileInfoView) -> Seq<char> {
    "{\"size\":"@ + dec_signed(v.size as int) + ",\"isFolder\":"@ + json_bool(v.is_dir) + ",\"dateAdded\":"@ + json_str(v.mod_time) + ",\"name\":"@ + json_str(v.name) + ",\"path\":"@ + json_str(v.full_path) + ",\"parentPath\":"@ + json_str(v.parent_path) + ",\"extension\":"@ + json_str(v.extension) + ",\"parentId\":"@ + dec(v.parent_id as nat) + ",\"objectId\":"@ + dec(v.object_id as nat) + "}"@
}

impl FileInfo {
    /// The JSON object text (see [`file_info_json`]).
    pub fn to_json(&self) -> (s: String)
        ensures
            s@ == file_info_json(self@),
    {
        let mut out = String::new();
        out.append("{\"size\":");
        push_dec_signed(&mut out, self.size);
        proof {
            assert(out@ =~= "{\"size\":"@ + dec_signed(self@.size as int));
        }
        out.append(",\"isFolder\":");
        push_bool(&mut out, self.is_dir);
        proof {
            assert(out@ =~= "{\"size\":"@ + dec_signed(self@.size as int) + ",\"isFolder\":"@ + json_bool(self@.is_dir));
        }
        out.append(",\"dateAdded\":");
        push_json_str(&mut out, self.mod_time.as_str());
        proof {
            assert(out@ =~= "{\"size\":"@ + dec_signed(self@.size as int) + ",\"isFolder\":"@ + json_bool(self@.is_dir) + ",\"dateAdded\":"@ + json_str(self@.mod_time));
        }
        out.append(",\"name\":");
        push_json_str(&mut out, self.name.as_str());
        proof {
            assert(out@ =~= "{\"size\":"@ + dec_signed(self@.size as int) + ",\"isFolder\":"@ + json_bool(self@.is_dir) + ",\"dateAdded\":"@ + json_str(self@.mod_time) + ",\"name\":"@ + json_str(self@.name));
        }
        out.append(",\"path\":");
        push_json_str(&mut out, self.full_path.as_str());
        proof {
            assert(out@ =~= "{\"size\":"@ + dec_signed(self@.size as int) + ",\"isFolder\":"@ + json_bool(self@.is_dir) + ",\"dateAdded\":"@ + json_str(self@.mod_time) + ",\"name\":"@ + json_str(self@.name) + ",\"path\":"@ + json_str(self@.full_path));
        }
        out.append(",\"parentPath\":");
        push_json_str(&mut out, self.parent_path.as_str());
        proof {
            assert(out@ =~= "{\"size\":"@ + dec_signed(self@.size as int) + ",\"isFolder\":"@ + json_bool(self@.is_dir) + ",\"dateAdded\":"@ + json_str(self@.mod_time) + ",\"name\":"@ + json_str(self@.name) + ",\"path\":"@ + json_str(self@.full_path) + ",\"parentPath\":"@ + json_str(self@.parent_path));
        }
        out.append(",\"extension\":");
        push_json_str(&mut out, self.extension.as_str());
        proof {
            assert(out@ =~= "{\"size\":"@ + dec_signed(self@.size as int) + ",\"isFolder\":"@ + json_bool(self@.is_dir) + ",\"dateAdded\":"@ + json_str(self@.mod_time) + ",\"name\":"@ + json_str(self@.name) + ",\"path\":"@ + json_str(self@.full_path) + ",\"parentPath\":"@ + json_str(self@.parent_path) + ",\"extension\":"@ + json_str(self@.extension));
        }
        out.append(",\"parentId\":");
        push_dec(&mut out, self.parent_id as u64);
        proof {
            assert(out@ =~= "{\"size\":"@ + dec_signed(self@.size as int) + ",\"isFolder\":"@ + json_bool(self@.is_dir) + ",\"dateAdded\":"@ + json_str(self@.mod_time) + ",\"name\":"@ + json_str(self@.name) + ",\"path\":"@ + json_str(self@.full_path) + ",\"parentPath\":"@ + json_str(self@.parent_path) + ",\"extension\":"@ + json_str(self@.extension) + ",\"parentId\":"@ + dec(self@.parent_id as nat));
        }
        out.append(",\"objectId\":");
        push_dec(&mut out, self.object_id as u64);
        proof {
            assert(out@ =~= "{\"size\":"@ + dec_signed(self@.size as int) + ",\"isFolder\":"@ + json_bool(self@.is_dir) + ",\"dateAdded\":"@ + json_str(self@.mod_time) + ",\"name\":"@ + json_str(self@.name) + ",\"path\":"@ + json_str(self@.full_path) + ",\"parentPath\":"@ + json_str(self@.parent_path) + ",\"extension\":"@ + json_str(self@.extension) + ",\"parentId\":"@ + dec(self@.parent_id as nat) + ",\"objectId\":"@ + dec(self@.object_id as nat));
        }
        out.append("}");
        out
    }
}

/// One entry of a FileExists result; `fullpath` is all lowercase.
#[derive(Clone, Debug, PartialEq, Eq)]
pub struct FileExistsData {
    pub fullpath: String,
    pub exists: bool,
}

/// A [`FileExistsData`] with its strings and arrays as sequences.
pub struct FileExistsDataView {
    pub fullpath: Seq<char>,
    pub exists: bool,
}

impl View for FileExistsData {
    type V = FileExistsDataView;

    open spec fn view(&self) -> FileExistsDataView {
        FileExistsDataView {
            fullpath: self.fullpath@,
            exists: self.exists,
        }
    }
}

/// The JSON object of a [`FileExistsData`], keys in wire order.
pub open spec fn file_exists_data_json(v: FileExistsDataView) -> Seq<char> {
    "{\"fullpath\":"@ + json_str(v.fullpath) + ",\"exists\":"@ + json_bool(v.exists) + "}"@
}

impl FileExistsData {
    /// The JSON object text (see [`file_exists_data_json`]).
    pub fn to_json(&self) -> (s: String)
        ensures
            s@ == file_exists_data_json(self@),
    {
        let mut out = String::new();
        out.append("{\"fullpath\":");
        push_json_str(&mut out, self.fullpath.as_str());
        proof {
            assert(out@ =~= "{\"fullpath\":"@ + json_str(self@.fullpath));
        }
        out.append(",\"exists\":");
        push_bool(&mut out, self.exists);
        proof {
            assert(out@ =~= "{\"fullpath\":"@ + json_str(self@.fullpath) + ",\"exists\":"@ + json_bool(self@.exists));
        }
        out.append("}");
        out
    }
}

/// The `data` of an upload or download preprocess report.
#[derive(Clone, Debug, PartialEq, Eq)]
pub struct TransferPreprocessData {
    pub full_path: String,
    pub name: String,
    pub size: i64,
}

/// A [`TransferPreprocessData`] with its strings and arrays as sequences.
pub struct TransferPreprocessDataView {
    pub full_path: Seq<char>,
    pub name: Seq<char>,
    pub size: i64,
}

impl View for TransferPreprocessData {
    type V = TransferPreprocessDataView;

    open spec fn view(&self) -> TransferPreprocessDataView {
        TransferPreprocessDataView {
            full_path: self.full_path@,
            name: self.name@,
            size: self.size,
        }
    }
}

/// The JSON object of a [`TransferPreprocessData`], keys in wire order.
pub open spec fn transfer_preprocess_data_json(v: TransferPreprocessDataView) -> Seq<char> {
    "{\"fullPath\":"@ + json_str(v.full_path) + ",\"name\":"@ + json_str(v.name) + ",\"size\":"@ + dec_signed(v.size as int) + "}"@
}

impl TransferPreprocessData {
    /// The JSON object text (see [`transfer_preprocess_data_json`]).
    pub fn to_json(&self) -> (s: String)
        ensures
            s@ == transfer_preprocess_data_json(self@),
    {
        let mut out = String::new();
        out.append("{\"fullPath\":");
        push_json_str(&mut out, self.full_path.as_str());
        proof {
            assert(out@ =~= "{\"fullPath\":"@ + json_str(self@.full_path));
        }
        out.append(",\"name\":");
        push_json_str(&mut out, self.name.as_str());
        proof {
            assert(out@ =~= "{\"fullPath\":"@ + json_str(self@.full_path) + ",\"name\":"@ + json_str(self@.name));
        }
        out.append(",\"size\":");
        push_dec_signed(&mut out, self.size);
        proof {
            assert(out@ =~= "{\"fullPath\":"@ + json_str(self@.full_path) + ",\"name\":"@ + json_str(self@.name) + ",\"size\":"@ + dec_signed(self@.size as int));
        }
        out.append("}");
        out
    }
}

/// `MakeDirectory` input. Absent fields take these defaults.
#[derive(Clone, Debug, PartialEq, Eq)]
pub struct MakeDirectoryInput {
    pub storage_id: u32,
    pub full_path: String,
}

impl Default for MakeDirectoryInput {
    /// Zero, empty and `false` throughout.
    fn default() -> (d: Self)
        ensures
            d.storage_id == 0,
            d.full_path@.len() == 0,
    {
        MakeDirectoryInput {
            storage_id: 0,
            full_path: String::new(),
        }
    }
}

/// `FetchThumbnail` input. Absent fields take these defaults.
#[derive(Clone, Debug, PartialEq, Eq)]
pub struct FetchThumbnailInput {
    pub storage_id: u32,
    pub full_path: String,
}

impl Default for FetchThumbnailInput {
    /// Zero, empty and `false` throughout.
    fn default() -> (d: Self)
        ensures
            d.storage_id == 0,
            d.full_path@.len() == 0,
    {
        FetchThumbnailInput {
            storage_id: 0,
            full_path: String::new(),
        }
    }
}

/// `FileExists` input. Absent fields take these defaults.
#[derive(Clone, Debug, PartialEq, Eq)]
pub struct FileExistsInput {
    pub storage_id: u32,
    pub files: Vec<String>,
}

impl Default for FileExistsInput {
    /// Zero, empty and `false` throughout.
    fn default() -> (d: Self)
        ensures
            d.storage_id == 0,
            d.files@.len() == 0,
    {
        FileExistsInput {
            storage_id: 0,
            files: Vec::new(),
        }
    }
}

/// `DeleteFile` input. Absent fields take these defaults.
#[derive(Clone, Debug, PartialEq, Eq)]
pub struct DeleteFileInput {
    pub storage_id: u32,
    pub files: Vec<String>,
}

impl Default for DeleteFileInput {
    /// Zero, empty and `false` throughout.
    fn default() -> (d: Self)
        ensures
            d.storage_id == 0,
            d.files@.len() == 0,
    {
        DeleteFileInput {
            storage_id: 0,
            files: Vec::new(),
        }
    }
}

/// `RenameFile` input. Absent fields take these defaults.
#[derive(Clone, Debug, PartialEq, Eq)]
pub struct RenameFileInput {
    pub storage_id: u32,
    pub full_path: String,
    pub new_file_name: String,
}

impl Default for RenameFileInput {
    /// Zero, empty and `false` throughout.
    fn default() -> (d: Self)
        ensures
            d.storage_id == 0,
            d.full_path@.len() == 0,
            d.new_file_name@.len() == 0,
    {
        RenameFileInput {
            storage_id: 0,
            full_path: String::new(),
            new_file_name: String::new(),
        }
    }
}

/// `Walk` input. Absent fields take these defaults.
#[derive(Clone, Debug, PartialEq, Eq)]
pub struct WalkInput {
    pub storage_id: u32,
    pub full_path: String,
    pub recursive: bool,
    pub skip_disallowed_files: bool,
    pub skip_hidden_files: bool,
}

impl Default for WalkInput {
    /// Zero, empty and `false` throughout.
    fn default() -> (d: Self)
        ensures
            d.storage_id == 0,
            d.full_path@.len() == 0,
            !d.recursive,
            !d.skip_disallowed_files,
            !d.skip_hidden_files,
    {
        WalkInput {
            storage_id: 0,
            full_path: String::new(),
            recursive: false,
            skip_disallowed_files: false,
            skip_hidden_files: false,
        }
    }
}

/// `UploadFiles` input. Absent fields take these defaults.
#[derive(Clone, Debug, PartialEq, Eq)]
pub struct UploadFilesInput {
    pub storage_id: u32,
    pub sources: Vec<String>,
    pub destination: String,
    pub preprocess_files: bool,
}

impl Default for UploadFilesInput {
    /// Zero, empty and `false` throughout.
    fn default() -> (d: Self)
        ensures
            d.storage_id == 0,
            d.sources@.len() == 0,
            d.destination@.len() == 0,
            !d.preprocess_files,
    {
        UploadFilesInput {
            storage_id: 0,
            sources: Vec::new(),
            destination: String::new(),
            preprocess_files: false,
        }
    }
}

/// `DownloadFiles` input. Absent fields take these defaults.
#[derive(Clone, Debug, PartialEq, Eq)]
pub struct DownloadFilesInput {
    pub storage_id: u32,
    pub sources: Vec<String>,
    pub destination: String,
    pub preprocess_files: bool,
}

impl Default for DownloadFilesInput {
    /// Zero, empty and `false` throughout.
    fn default() -> (d: Self)
        ensures
            d.storage_id == 0,
            d.sources@.len() == 0,
            d.destination@.len() == 0,
            !d.preprocess_files,
    {
        DownloadFilesInput {
            storage_id: 0,
            sources: Vec::new(),
            destination: String::new(),
            preprocess_files: false,
        }
    }
}

/// The wire device description of a decoded device and its USB description.
pub open spec fn device_info_data_of(dev: DeviceInfoView, usb: UsbInfo) -> DeviceInfoDataView {
    DeviceInfoDataView {
        mtp_device_info: MtpDeviceInfoView {
            standard_version: dev.standard_version,
            mtp_vendor_extension_id: dev.mtp_vendor_extension_id,
            mtp_version: dev.mtp_version,
            mtp_extension: dev.mtp_extension,
            functional_mode: dev.functional_mode,
            operations_supported: dev.operations_supported,
            events_supported: dev.events_supported,
            device_properties_supported: dev.device_properties_supported,
            capture_formats: dev.capture_formats,
            playback_formats: dev.playback_formats,
            manufacturer: dev.manufacturer,
            model: dev.model,
            device_version: dev.device_version,
            serial_number: dev.serial_number,
        },
        usb_device_info: UsbDeviceInfoView {
            id_vendor: usb.vendor_id,
            id_product: usb.product_id,
            device: usb.bcd_device,
            manufacturer: usb.manufacturer@,
            product: usb.product@,
            serial_number: usb.serial@,
        },
    }
}

fn copy_u16s(v: &Vec<u16>) -> (r: Vec<u16>)
    ensures
        r@ == v@,
{
    let mut r: Vec<u16> = Vec::new();
    let mut i: usize = 0;
    while i < v.len()
        invariant
            0 <= i <= v@.len(),
            r@ == v@.take(i as int),
        decreases v@.len() - i,
    {
        r.push(v[i]);
        i = i + 1;
        proof {
            assert(r@ =~= v@.take(i as int));
        }
    }
    proof {
        assert(v@.take(v@.len() as int) =~= v@);
    }
    r
}

fn device_info_data(dev: &DeviceInfo, usb: &UsbInfo) -> (d: DeviceInfoData)
    ensures
        d@ == device_info_data_of(dev@, *usb),
{
    DeviceInfoData {
        mtp_device_info: MtpDeviceInfo {
            standard_version: dev.standard_version,
            mtp_vendor_extension_id: dev.mtp_vendor_extension_id,
            mtp_version: dev.mtp_version,
            mtp_extension: dev.mtp_extension.clone(),
            functional_mode: dev.functional_mode,
            operations_supported: copy_u16s(&dev.operations_supported),
            events_supported: copy_u16s(&dev.events_supported),
            device_properties_supported: copy_u16s(&dev.device_properties_supported),
            capture_formats: copy_u16s(&dev.capture_formats),
            playback_formats: copy_u16s(&dev.playback_formats),
            manufacturer: dev.manufacturer.clone(),
            model: dev.model.clone(),
            device_version: dev.device_version.clone(),
            serial_number: dev.serial_number.clone(),
        },
        usb_device_info: UsbDeviceInfo {
            id_vendor: usb.vendor_id,
            id_product: usb.product_id,
            device: usb.bcd_device,
            manufacturer: usb.manufacturer.clone(),
            product: usb.product.clone(),
            serial_number: usb.serial.clone(),
        },
    }
}

/// Initialize result: the device and USB descriptions.
pub fn initialize_json(dev: &DeviceInfo, usb: &UsbInfo) -> (s: String)
    ensures
        s@ == envelope_ok(device_info_data_json(device_info_data_of(dev@, *usb))),
{
    let d = device_info_data(dev, usb);
    let body = d.to_json();
    ok_json(body.as_str())
}

/// FetchDeviceInfo result: the same shape as Initialize.
pub fn device_info_json(dev: &DeviceInfo, usb: &UsbInfo) -> (s: String)
    ensures
        s@ == envelope_ok(device_info_data_json(device_info_data_of(dev@, *usb))),
{
    let d = device_info_data(dev, usb);
    let body = d.to_json();
    ok_json(body.as_str())
}

/// The comma-separated JSON values of `parts`.
pub open spec fn json_join(parts: Seq<Seq<char>>) -> Seq<char>
    decreases parts.len(),
{
    if parts.len() == 0 {
        Seq::empty()
    } else if parts.len() == 1 {
        parts[0]
    } else {
        json_join(parts.drop_last()) + seq![','] + parts.last()
    }
}

/// The JSON array of the values `parts`.
pub open spec fn json_array(parts: Seq<Seq<char>>) -> Seq<char> {
    seq!['['] + json_join(parts) + seq![']']
}

/// A listing: `null` when empty, else the array.
pub open spec fn json_list_or_null(parts: Seq<Seq<char>>) -> Seq<char> {
    if parts.len() == 0 {
        "null"@
    } else {
        json_array(parts)
    }
}

/// Extend `out`, which holds `[` and the first `i` values, by one more.
pub(crate) proof fn lemma_join_step(parts: Seq<Seq<char>>, i: int)
    requires
        0 <= i < parts.len(),
    ensures
        json_join(parts.take(i + 1)) == if i == 0 {
            parts[0]
        } else {
            json_join(parts.take(i)) + seq![','] + parts[i]
        },
{
    let t = parts.take(i + 1);
    assert(t.drop_last() =~= parts.take(i));
}

/// FetchStorages result: the array of storage entries; `[]` when there are
/// none.
pub fn storages_json(storages: &[StorageData]) -> (s: String)
    ensures
        s@ == envelope_ok(json_array(storages@.map_values(|d: StorageData| storage_data_json(d@)))),
{
    let ghost parts = storages@.map_values(|d: StorageData| storage_data_json(d@));
    let mut out = "[".to_owned();
    let mut i: usize = 0;
    proof {
        reveal_strlit("[");
        assert(parts.take(0) =~= Seq::<Seq<char>>::empty());
    }
    while i < storages.len()
        invariant
            0 <= i <= storages@.len(),
            parts == storages@.map_values(|d: StorageData| storage_data_json(d@)),
            out@ == seq!['['] + json_join(parts.take(i as int)),
        decreases storages@.len() - i,
    {
        if i > 0 {
            out.append(",");
        }
        let part = storages[i].to_json();
        out.append(part.as_str());
        proof {
            reveal_strlit(",");
            lemma_join_step(parts, i as int);
            assert(out@ =~= seq!['['] + json_join(parts.take(i + 1)));
        }
        i = i + 1;
    }
    out.append("]");
    proof {
        reveal_strlit("]");
        assert(parts.take(storages@.len() as int) =~= parts);
        assert(out@ =~= json_array(parts));
    }
    ok_json(out.as_str())
}

/// MakeDirectory result: `data` is `true`.
pub fn make_directory_json() -> (s: String)
    ensures
        s@ == envelope_ok("true"@),
{
    ok_json("true")
}

/// DeleteFile result: `data` is `true`.
pub fn delete_file_json() -> (s: String)
    ensures
        s@ == envelope_ok("true"@),
{
    ok_json("true")
}

/// RenameFile result: `data` is `true`.
pub fn rename_file_json() -> (s: String)
    ensures
        s@ == envelope_ok("true"@),
{
    ok_json("true")
}

/// Transfer-done result: `data` is `true`.
pub fn transfer_done_json() -> (s: String)
    ensures
        s@ == envelope_ok("true"@),
{
    ok_json("true")
}

/// Dispose result: `data` is `true`.
pub fn dispose_json() -> (s: String)
    ensures
        s@ == envelope_ok("true"@),
{
    ok_json("true")
}

/// Error result: the error type and message, with `null` data.
pub fn error_json(error_type: &str, error: String) -> (s: String)
    ensures
        s@ == envelope_error(error_type@, error@),
{
    let mut s = "{\"errorType\":".to_owned();
    push_json_str(&mut s, error_type);
    s.append(",\"error\":");
    push_json_str(&mut s, error.as_str());
    s.append(",\"data\":null}");
    s
}

/// The base64 alphabet character for `i` in `0..64`.
pub open spec fn b64_char(i: nat) -> char {
    let code: int = if i < 26 {
        65 + i as int
    } else if i < 52 {
        97 + (i - 26)
    } else if i < 62 {
        48 + (i - 52)
    } else if i == 62 {
        43
    } else {
        47
    };
    code as char
}

/// The four characters of chunk `j` (bytes `3j..3j+3`) of `b`; a short last
/// chunk is zero-filled and padded with `=`.
pub open spec fn b64_chunk(b: Seq<u8>, j: int) -> Seq<char> {
    let r = b.len() - 3 * j;
    let b0 = b[3 * j] as nat;
    let b1 = if r > 1 { b[3 * j + 1] as nat } else { 0 };
    let b2 = if r > 2 { b[3 * j + 2] as nat } else { 0 };
    let n = b0 * 65536 + b1 * 256 + b2;
    seq![
        b64_char((n / 262144) % 64),
        b64_char((n / 4096) % 64),
        if r > 1 { b64_char((n / 64) % 64) } else { '=' },
        if r > 2 { b64_char(n % 64) } else { '=' },
    ]
}

/// The first `k` chunks of the base64 form of `b`.
pub open spec fn b64_prefix(b: Seq<u8>, k: nat) -> Seq<char>
    decreases k,
{
    if k == 0 {
        Seq::empty()
    } else {
        b64_prefix(b, (k - 1) as nat) + b64_chunk(b, k - 1)
    }
}

/// Standard base64 (RFC 4648, with `=` padding) of `b`.
pub open spec fn base64_spec(b: Seq<u8>) -> Seq<char> {
    b64_prefix(b, ((b.len() + 2) / 3) as nat)
}

fn push_b64(out: &mut String, i: u32)
    requires
        i < 64,
    ensures
        final(out)@ == old(out)@.push(b64_char(i as nat)),
{
    let code: u32 = if i < 26 {
        65 + i
    } else if i < 52 {
        97 + (i - 26)
    } else if i < 62 {
        48 + (i - 52)
    } else if i == 62 {
        43
    } else {
        47
    };
    match char_from_u32(code) {
        Some(c) => push_char(out, c),
        None => {
            proof {
                assert(vstd::utf8::is_scalar(code));
            }
        },
    }
}

/// Append chunk `j` of the base64 form of `input`.
fn push_b64_chunk(out: &mut String, input: &[u8], j: usize)
    requires
        3 * j < input.len(),
    ensures
        final(out)@ == old(out)@ + b64_chunk(input@, j as int),
{
    let at = 3 * j;
    let r = input.len() - at;
    let b0 = input[at] as u32;
    let b1: u32 = if r > 1 { input[at + 1] as u32 } else { 0 };
    let b2: u32 = if r > 2 { input[at + 2] as u32 } else { 0 };
    let n = b0 * 65536 + b1 * 256 + b2;
    let ghost start = out@;
    push_b64(out, (n / 262144) % 64);
    push_b64(out, (n / 4096) % 64);
    if r > 1 {
        push_b64(out, (n / 64) % 64);
    } else {
        push_char(out, '=');
    }
    if r > 2 {
        push_b64(out, n % 64);
    } else {
        push_char(out, '=');
    }
    proof {
        assert(out@ =~= start + b64_chunk(input@, j as int));
    }
}

/// Standard base64 (RFC 4648, with `=` padding).
pub fn base64_encode(input: &[u8]) -> (s: String)
    ensures
        s@ == base64_spec(input@),
        super::base64_law::b64_decode(s@) == input@,
{
    proof {
        super::base64_law::lemma_base64_roundtrip(input@);
    }
    let mut out = String::new();
    let n_chunks = input.len() / 3 + if input.len() % 3 == 0 { 0 } else { 1 };
    let mut j: usize = 0;
    proof {
        assert(n_chunks == (input@.len() + 2) / 3);
    }
    while j < n_chunks
        invariant
            0 <= j <= n_chunks,
            n_chunks == (input@.len() + 2) / 3,
            out@ == b64_prefix(input@, j as nat),
        decreases n_chunks - j,
    {
        push_b64_chunk(&mut out, input, j);
        j = j + 1;
    }
    out
}

/// FetchThumbnail result: the thumbnail bytes in base64, or `null` data when
/// there is none.
pub fn thumbnail_json(bytes: Option<&[u8]>) -> (s: String)
    ensures
        s@ == envelope_ok(
            match bytes {
                Some(b) => json_str(base64_spec(b@)),
                None => "null"@,
            },
        ),
{
    match bytes {
        Some(b) => {
            let text = base64_encode(b);
            let mut body = String::new();
            push_json_str(&mut body, text.as_str());
            ok_json(body.as_str())
        },
        None => ok_json("null"),
    }
}

/// FileExists result: each input path paired with its flag, as many pairs as
/// the shorter list has entries; `null` data when there are none.
pub fn file_exists_json(exists: &[bool], input_files: &[String]) -> (s: String)
    ensures
        s@ == envelope_ok(
            json_list_or_null(
                Seq::new(
                    if exists@.len() < input_files@.len() { exists@.len() } else { input_files@.len() },
                    |i: int| file_exists_data_json(FileExistsDataView { fullpath: input_files@[i]@, exists: exists@[i] }),
                ),
            ),
        ),
{
    let n = if exists.len() < input_files.len() { exists.len() } else { input_files.len() };
    let ghost parts = Seq::new(
        n as nat,
        |i: int| file_exists_data_json(FileExistsDataView { fullpath: input_files@[i]@, exists: exists@[i] }),
    );
    if n == 0 {
        proof {
            assert(parts.len() == 0);
        }
        return ok_json("null");
    }
    let mut out = "[".to_owned();
    let mut i: usize = 0;
    proof {
        reveal_strlit("[");
        assert(parts.take(0) =~= Seq::<Seq<char>>::empty());
    }
    while i < n
        invariant
            0 <= i <= n,
            n <= exists@.len(),
            n <= input_files@.len(),
            parts.len() == n,
            forall|k: int| 0 <= k < n ==> #[trigger] parts[k] == file_exists_data_json(
                FileExistsDataView { fullpath: input_files@[k]@, exists: exists@[k] },
            ),
            out@ == seq!['['] + json_join(parts.take(i as int)),
        decreases n - i,
    {
        if i > 0 {
            out.append(",");
        }
        let item = FileExistsData { fullpath: input_files[i].clone(), exists: exists[i] };
        let part = item.to_json();
        out.append(part.as_str());
        proof {
            reveal_strlit(",");
            lemma_join_step(parts, i as int);
            assert(parts[i as int] == part@);
            assert(out@ =~= seq!['['] + json_join(parts.take(i + 1)));
        }
        i = i + 1;
    }
    out.append("]");
    proof {
        reveal_strlit("]");
        assert(parts.take(n as int) =~= parts);
        assert(out@ =~= json_list_or_null(parts));
    }
    ok_json(out.as_str())
}

/// The `dateAdded` text of a modification time in milliseconds since the
/// epoch: UTC civil time as `YYYY-MM-DDThh:mm:ss.mmmZ`; an absent or
/// pre-epoch time gives the zero timestamp `0001-01-01T00:00:00.000Z`.
pub open spec fn date_added_text(mod_time_ms: Option<i64>) -> Seq<char> {
    match mod_time_ms {
        Some(ms) if ms >= 0 => {
            let secs = ms / 1000;
            let millis = ms % 1000;
            let ymd = civil_from_days_spec(secs / 86400);
            let tod = secs % 86400;
            dec_pad(ymd.0 as nat, 4) + seq!['-'] + dec_pad(ymd.1 as nat, 2) + seq!['-'] + dec_pad(
                ymd.2 as nat,
                2,
            ) + seq!['T'] + dec_pad((tod / 3600) as nat, 2) + seq![':'] + dec_pad(
                ((tod % 3600) / 60) as nat,
                2,
            ) + seq![':'] + dec_pad((tod % 60) as nat, 2) + seq!['.'] + dec_pad(millis as nat, 3)
                + seq!['Z']
        },
        _ => "0001-01-01T00:00:00.000Z"@,
    }
}

/// Format a modification time for `dateAdded` (see [`date_added_text`]).
pub fn format_date_added(mod_time_ms: Option<i64>) -> (s: String)
    ensures
        s@ == date_added_text(mod_time_ms),
{
    let ms = match mod_time_ms {
        Some(ms) => {
            if ms < 0 {
                return "0001-01-01T00:00:00.000Z".to_owned();
            }
            ms
        },
        None => return "0001-01-01T00:00:00.000Z".to_owned(),
    };
    let secs = ms / 1000;
    let millis = ms % 1000;
    let days = secs / 86400;
    let tod = secs % 86400;
    let (y, mo, d) = civil_from_days(days);
    let mut out = String::new();
    push_dec_pad(&mut out, y as u64, 4);
    push_char(&mut out, '-');
    push_dec_pad(&mut out, mo as u64, 2);
    push_char(&mut out, '-');
    push_dec_pad(&mut out, d as u64, 2);
    push_char(&mut out, 'T');
    push_dec_pad(&mut out, (tod / 3600) as u64, 2);
    push_char(&mut out, ':');
    push_dec_pad(&mut out, ((tod % 3600) / 60) as u64, 2);
    push_char(&mut out, ':');
    push_dec_pad(&mut out, (tod % 60) as u64, 2);
    push_char(&mut out, '.');
    push_dec_pad(&mut out, millis as u64, 3);
    push_char(&mut out, 'Z');
    proof {
        assert(out@ =~= date_added_text(mod_time_ms));
    }
    out
}

/// A listed file as the filesystem layer describes it: the input of
/// [`walk_json`]. The modification time is in milliseconds since the epoch.
#[derive(Clone, Debug, PartialEq, Eq)]
pub struct ListedFile {
    pub size: i64,
    pub is_dir: bool,
    pub mod_time_ms: Option<i64>,
    pub name: String,
    pub full_path: String,
    pub parent_path: String,
    pub extension: String,
    pub parent_id: u32,
    pub object_id: u32,
}

/// The wire entry of a listed file.
pub open spec fn file_info_of(f: ListedFile) -> FileInfoView {
    FileInfoView {
        size: f.size,
        is_dir: f.is_dir,
        mod_time: date_added_text(f.mod_time_ms),
        name: f.name@,
        full_path: f.full_path@,
        parent_path: f.parent_path@,
        extension: f.extension@,
        parent_id: f.parent_id,
        object_id: f.object_id,
    }
}

/// The wire entry of one listed file, as JSON.
fn listed_file_json(f: &ListedFile) -> (s: String)
    ensures
        s@ == file_info_json(file_info_of(*f)),
{
    let item = FileInfo {
        size: f.size,
        is_dir: f.is_dir,
        mod_time: format_date_added(f.mod_time_ms),
        name: f.name.clone(),
        full_path: f.full_path.clone(),
        parent_path: f.parent_path.clone(),
        extension: f.extension.clone(),
        parent_id: f.parent_id,
        object_id: f.object_id,
    };
    proof {
        assert(item@ == file_info_of(*f));
    }
    item.to_json()
}

/// Walk result: one entry per listed file; `null` data when there are none.
pub fn walk_json(files: &[ListedFile]) -> (s: String)
    ensures
        s@ == envelope_ok(json_list_or_null(files@.map_values(|f: ListedFile| file_info_json(file_info_of(f))))),
{
    let ghost parts = files@.map_values(|f: ListedFile| file_info_json(file_info_of(f)));
    if files.len() == 0 {
        proof {
            assert(parts.len() == 0);
        }
        return ok_json("null");
    }
    let mut out = "[".to_owned();
    let mut i: usize = 0;
    proof {
        reveal_strlit("[");
        assert(parts.take(0) =~= Seq::<Seq<char>>::empty());
    }
    while i < files.len()
        invariant
            0 <= i <= files@.len(),
            parts == files@.map_values(|f: ListedFile| file_info_json(file_info_of(f))),
            out@ == seq!['['] + json_join(parts.take(i as int)),
        decreases files@.len() - i,
    {
        if i > 0 {
            out.append(",");
        }
        let part = listed_file_json(&files[i]);
        out.append(part.as_str());
        proof {
            reveal_strlit(",");
            lemma_join_step(parts, i as int);
            assert(out@ =~= seq!['['] + json_join(parts.take(i + 1)));
        }
        i = i + 1;
    }
    out.append("]");
    proof {
        reveal_strlit("]");
        assert(parts.take(files@.len() as int) =~= parts);
        assert(out@ =~= json_list_or_null(parts));
    }
    ok_json(out.as_str())
}

/// Upload preprocess report: the file's path, name and size.
pub fn upload_preprocess_json(full_path: &str, name: &str, size: i64) -> (s: String)
    ensures
        s@ == envelope_ok(
            transfer_preprocess_data_json(TransferPreprocessDataView { full_path: full_path@, name: name@, size }),
        ),
{
    let d = TransferPreprocessData { full_path: full_path.to_owned(), name: name.to_owned(), size };
    let body = d.to_json();
    ok_json(body.as_str())
}

/// Download preprocess report: the same shape as the upload one.
pub fn download_preprocess_json(full_path: &str, name: &str, size: i64) -> (s: String)
    ensures
        s@ == envelope_ok(
            transfer_preprocess_data_json(TransferPreprocessDataView { full_path: full_path@, name: name@, size }),
        ),
{
    let d = TransferPreprocessData { full_path: full_path.to_owned(), name: name.to_owned(), size };
    let body = d.to_json();
    ok_json(body.as_str())
}

} // verus!
