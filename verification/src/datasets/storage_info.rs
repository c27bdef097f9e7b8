//! The StorageInfo dataset.
use vstd::prelude::*;
use crate::error::{ProtoError, ProtoErrorView};
use super::reader::{
    get_str, get_u16, get_u16_array, get_u32, get_u32_array, get_u64, get_u8, rd_str, rd_u16,
    rd_u16_array, rd_u32, rd_u32_array, rd_u64, rd_u8,
};

verus! {

/// The description of one storage a GetStorageInfo reply carries.
#[derive(Clone, Debug, PartialEq)]
pub struct StorageInfo {
    pub storage_type: u16,
    pub filesystem_type: u16,
    pub access_capability: u16,
    pub max_capability: u64,
    pub free_space_in_bytes: u64,
    pub free_space_in_images: u32,
    pub storage_description: String,
    pub volume_label: String,
}

/// A [`StorageInfo`] with its strings and arrays as sequences.
pub struct StorageInfoView {
    pub storage_type: u16,
    pub filesystem_type: u16,
    pub access_capability: u16,
    pub max_capability: u64,
    pub free_space_in_bytes: u64,
    pub free_space_in_images: u32,
    pub storage_description: Seq<char>,
    pub volume_label: Seq<char>,
}

impl View for StorageInfo {
    type V = StorageInfoView;

    open spec fn view(&self) -> StorageInfoView {
        StorageInfoView {
            storage_type: self.storage_type,
            filesystem_type: self.filesystem_type,
            access_capability: self.access_capability,
            max_capability: self.max_capability,
            free_space_in_bytes: self.free_space_in_bytes,
            free_space_in_images: self.free_space_in_images,
            storage_description: self.storage_description@,
            volume_label: self.volume_label@,
        }
    }
}

impl Default for StorageInfo {
    /// Every number zero, every string and array empty, every date absent.
    fn default() -> (d: Self)
        ensures
            d.storage_type == 0,
            d.filesystem_type == 0,
            d.access_capability == 0,
            d.max_capability == 0,
            d.free_space_in_bytes == 0,
            d.free_space_in_images == 0,
            d.storage_description@.len() == 0,
            d.volume_label@.len() == 0,
    {
        StorageInfo {
            storage_type: 0,
            filesystem_type: 0,
            access_capability: 0,
            max_capability: 0,
            free_space_in_bytes: 0,
            free_space_in_images: 0,
            storage_description: String::new(),
            volume_label: String::new(),
        }
    }
}

/// Reading a [`StorageInfo`]: each field in wire order.
pub open spec fn storage_info_read(b: Seq<u8>) -> Result<(StorageInfoView, Seq<u8>), ProtoErrorView> {
    match rd_u16(b) {
        Err(e) => Err(e),
        Ok((storage_type, b1)) => 
            match rd_u16(b1) {
                Err(e) => Err(e),
                Ok((filesystem_type, b2)) => 
                    match rd_u16(b2) {
                        Err(e) => Err(e),
                        Ok((access_capability, b3)) => 
                            match rd_u64(b3) {
                                Err(e) => Err(e),
                                Ok((max_capability, b4)) => 
                                    match rd_u64(b4) {
                                        Err(e) => Err(e),
                                        Ok((free_space_in_bytes, b5)) => 
                                            match rd_u32(b5) {
                                                Err(e) => Err(e),
                                                Ok((free_space_in_images, b6)) => 
                                                    match rd_str(b6) {
                                                        Err(e) => Err(e),
                                                        Ok((storage_description, b7)) => 
                                                            match rd_str(b7) {
                                                                Err(e) => Err(e),
                                                                Ok((volume_label, b8)) => Ok((
                                                                    StorageInfoView {
                                                                        storage_type,
                                                                        filesystem_type,
                                                                        access_capability,
                                                                        max_capability,
                                                                        free_space_in_bytes,
                                                                        free_space_in_images,
                                                                        storage_description,
                                                                        volume_label,
                                                                    }, b8)),
                                                                },
                                                        },
                                                },
                                        },
                                },
                        },
                },
        }
}

impl StorageInfo {
    /// Decode a [`StorageInfo`] (see [`storage_info_read`]).
    pub fn decode(buf: &mut &[u8]) -> (r: Result<Self, ProtoError>)
        ensures
            match storage_info_read(old(buf)@) {
                Ok((v, rest)) => r matches Ok(d) && d@ == v && final(buf)@ == rest,
                Err(e) => r matches Err(x) && x@ == e,
            },
    {
        let storage_type = match get_u16(buf) {
            Ok(v) => v,
            Err(e) => return Err(e),
        };
        let filesystem_type = match get_u16(buf) {
            Ok(v) => v,
            Err(e) => return Err(e),
        };
        let access_capability = match get_u16(buf) {
            Ok(v) => v,
            Err(e) => return Err(e),
        };
        let max_capability = match get_u64(buf) {
            Ok(v) => v,
            Err(e) => return Err(e),
        };
        let free_space_in_bytes = match get_u64(buf) {
            Ok(v) => v,
            Err(e) => return Err(e),
        };
        let free_space_in_images = match get_u32(buf) {
            Ok(v) => v,
            Err(e) => return Err(e),
        };
        let storage_description = match get_str(buf) {
            Ok(v) => v,
            Err(e) => return Err(e),
        };
        let volume_label = match get_str(buf) {
            Ok(v) => v,
            Err(e) => return Err(e),
        };
        Ok(StorageInfo {
            storage_type,
            filesystem_type,
            access_capability,
            max_capability,
            free_space_in_bytes,
            free_space_in_images,
            storage_description,
            volume_label,
        })
    }
}

impl StorageInfo {
    /// Whether the filesystem is generic hierarchical (`0x0002`).
    pub fn is_hierarchical(&self) -> (b: bool)
        ensures
            b == (self.filesystem_type == 0x0002),
    {
        self.filesystem_type == 0x0002
    }

    /// Whether the filesystem is DCF (`0x0003`).
    pub fn is_dcf(&self) -> (b: bool)
        ensures
            b == (self.filesystem_type == 0x0003),
    {
        self.filesystem_type == 0x0003
    }

    /// Whether the storage is removable ROM (`0x0002`) or removable RAM
    /// (`0x0004`).
    pub fn is_removable(&self) -> (b: bool)
        ensures
            b == (self.storage_type == 0x0002 || self.storage_type == 0x0004),
    {
        self.storage_type == 0x0002 || self.storage_type == 0x0004
    }
}

} // verus!
