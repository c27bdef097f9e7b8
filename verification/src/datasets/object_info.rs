//! The ObjectInfo dataset, decoded from GetObjectInfo and encoded for
//! SendObjectInfo.
use vstd::prelude::*;
use crate::codec::{le_u, write_u16, write_u32};
use crate::datetime::{datetime_field_chars, datetime_value, decode_datetime, encode_datetime};
use crate::error::{ProtoError, ProtoErrorView};
use crate::ptp_string::encode_string;
use crate::utf16::ptp_string_bytes;
use super::reader::{get_str, get_u16, get_u32, rd_str, rd_u16, rd_u32};

verus! {

/// The description of one object, as GetObjectInfo returns it and SendObjectInfo sends it.
#[derive(Clone, Debug, PartialEq)]
pub struct ObjectInfo {
    pub storage_id: u32,
    pub object_format: u16,
    pub protection_status: u16,
    /// `u32` on the wire; `0xFFFFFFFF` means the real size exceeds 4 GiB.
    pub compressed_size: u32,
    pub thumb_format: u16,
    pub thumb_compressed_size: u32,
    pub thumb_pix_width: u32,
    pub thumb_pix_height: u32,
    pub image_pix_width: u32,
    pub image_pix_height: u32,
    pub image_bit_depth: u32,
    pub parent_object: u32,
    pub association_type: u16,
    pub association_desc: u32,
    pub sequence_number: u32,
    pub filename: String,
    /// Seconds since the Unix epoch; `None` is sent as an empty string.
    pub capture_date: Option<i64>,
    /// Seconds since the Unix epoch; `None` is sent as an empty string.
    pub modification_date: Option<i64>,
    pub keywords: String,
}

/// A [`ObjectInfo`] with its strings and arrays as sequences.
pub struct ObjectInfoView {
    pub storage_id: u32,
    pub object_format: u16,
    pub protection_status: u16,
    pub compressed_size: u32,
    pub thumb_format: u16,
    pub thumb_compressed_size: u32,
    pub thumb_pix_width: u32,
    pub thumb_pix_height: u32,
    pub image_pix_width: u32,
    pub image_pix_height: u32,
    pub image_bit_depth: u32,
    pub parent_object: u32,
    pub association_type: u16,
    pub association_desc: u32,
    pub sequence_number: u32,
    pub filename: Seq<char>,
    pub capture_date: Option<i64>,
    pub modification_date: Option<i64>,
    pub keywords: Seq<char>,
}

impl View for ObjectInfo {
    type V = ObjectInfoView;

    open spec fn view(&self) -> ObjectInfoView {
        ObjectInfoView {
            storage_id: self.storage_id,
            object_format: self.object_format,
            protection_status: self.protection_status,
            compressed_size: self.compressed_size,
            thumb_format: self.thumb_format,
            thumb_compressed_size: self.thumb_compressed_size,
            thumb_pix_width: self.thumb_pix_width,
            thumb_pix_height: self.thumb_pix_height,
            image_pix_width: self.image_pix_width,
            image_pix_height: self.image_pix_height,
            image_bit_depth: self.image_bit_depth,
            parent_object: self.parent_object,
            association_type: self.association_type,
            association_desc: self.association_desc,
            sequence_number: self.sequence_number,
            filename: self.filename@,
            capture_date: self.capture_date,
            modification_date: self.modification_date,
            keywords: self.keywords@,
        }
    }
}

impl Default for ObjectInfo {
    /// Every number zero, every string and array empty, every date absent.
    fn default() -> (d: Self)
        ensures
            d.storage_id == 0,
            d.object_format == 0,
            d.protection_status == 0,
            d.compressed_size == 0,
            d.thumb_format == 0,
            d.thumb_compressed_size == 0,
            d.thumb_pix_width == 0,
            d.thumb_pix_height == 0,
            d.image_pix_width == 0,
            d.image_pix_height == 0,
            d.image_bit_depth == 0,
            d.parent_object == 0,
            d.association_type == 0,
            d.association_desc == 0,
            d.sequence_number == 0,
            d.filename@.len() == 0,
            d.capture_date is None,
            d.modification_date is None,
            d.keywords@.len() == 0,
    {
        ObjectInfo {
            storage_id: 0,
            object_format: 0,
            protection_status: 0,
            compressed_size: 0,
            thumb_format: 0,
            thumb_compressed_size: 0,
            thumb_pix_width: 0,
            thumb_pix_height: 0,
            image_pix_width: 0,
            image_pix_height: 0,
            image_bit_depth: 0,
            parent_object: 0,
            association_type: 0,
            association_desc: 0,
            sequence_number: 0,
            filename: String::new(),
            capture_date: None,
            modification_date: None,
            keywords: String::new(),
        }
    }
}

/// Reading a [`ObjectInfo`]: each field in wire order.
pub open spec fn object_info_read(b: Seq<u8>) -> Result<(ObjectInfoView, Seq<u8>), ProtoErrorView> {
    match rd_u32(b) {
        Err(e) => Err(e),
        Ok((storage_id, b1)) => 
            match rd_u16(b1) {
                Err(e) => Err(e),
                Ok((object_format, b2)) => 
                    match rd_u16(b2) {
                        Err(e) => Err(e),
                        Ok((protection_status, b3)) => 
                            match rd_u32(b3) {
                                Err(e) => Err(e),
                                Ok((compressed_size, b4)) => 
                                    match rd_u16(b4) {
                                        Err(e) => Err(e),
                                        Ok((thumb_format, b5)) => 
                                            match rd_u32(b5) {
                                                Err(e) => Err(e),
                                                Ok((thumb_compressed_size, b6)) => 
                                                    match rd_u32(b6) {
                                                        Err(e) => Err(e),
                                                        Ok((thumb_pix_width, b7)) => 
                                                            match rd_u32(b7) {
                                                                Err(e) => Err(e),
                                                                Ok((thumb_pix_height, b8)) => 
                                                                    match rd_u32(b8) {
                                                                        Err(e) => Err(e),
                                                                        Ok((image_pix_width, b9)) => 
                                                                            match rd_u32(b9) {
                                                                                Err(e) => Err(e),
                                                                                Ok((image_pix_height, b10)) => 
                                                                                    match rd_u32(b10) {
                                                                                        Err(e) => Err(e),
                                                                                        Ok((image_bit_depth, b11)) => 
                                                                                            match rd_u32(b11) {
                                                                                                Err(e) => Err(e),
                                                                                                Ok((parent_object, b12)) => 
                                                                                                    match rd_u16(b12) {
                                                                                                        Err(e) => Err(e),
                                                                                                        Ok((association_type, b13)) => 
                                                                                                            match rd_u32(b13) {
                                                                                                                Err(e) => Err(e),
                                                                                                                Ok((association_desc, b14)) => 
                                                                                                                    match rd_u32(b14) {
                                                                                                                        Err(e) => Err(e),
                                                                                                                        Ok((sequence_number, b15)) => 
                                                                                                                            match rd_str(b15) {
                                                                                                                                Err(e) => Err(e),
                                                                                                                                Ok((filename, b16)) => 
                                                                                                                                    match rd_date(b16) {
                                                                                                                                        Err(e) => Err(e),
                                                                                                                                        Ok((capture_date, b17)) => 
                                                                                                                                            match rd_date(b17) {
                                                                                                                                                Err(e) => Err(e),
                                                                                                                                                Ok((modification_date, b18)) => 
                                                                                                                                                    match rd_str(b18) {
                                                                                                                                                        Err(e) => Err(e),
                                                                                                                                                        Ok((keywords, b19)) => Ok((
                                                                                                                                                            ObjectInfoView {
                                                                                                                                                                storage_id,
                                                                                                                                                                object_format,
                                                                                                                                                                protection_status,
                                                                                                                                                                compressed_size,
                                                                                                                                                                thumb_format,
                                                                                                                                                                thumb_compressed_size,
                                                                                                                                                                thumb_pix_width,
                                                                                                                                                                thumb_pix_height,
                                                                                                                                                                image_pix_width,
                                                                                                                                                                image_pix_height,
                                                                                                                                                                image_bit_depth,
                                                                                                                                                                parent_object,
                                                                                                                                                                association_type,
                                                                                                                                                                association_desc,
                                                                                                                                                                sequence_number,
                                                                                                                                                                filename,
                                                                                                                                                                capture_date,
                                                                                                                                                                modification_date,
                                                                                                                                                                keywords,
                                                                                                                                                            }, b19)),
                                                                                                                                                        },
                                                                                                                                                },
                                                                                                                                        },
                                                                                                                                },
                                                                                                                        },
                                                                                                                },
                                                                                                        },
                                                                                                },
                                                                                        },
                                                                                },
                                                                        },
                                                                },
                                                        },
                                                },
                                        },
                                },
                        },
                },
        }
}

impl ObjectInfo {
    /// Decode a [`ObjectInfo`] (see [`object_info_read`]).
    pub fn decode(buf: &mut &[u8]) -> (r: Result<Self, ProtoError>)
        ensures
            match object_info_read(old(buf)@) {
                Ok((v, rest)) => r matches Ok(d) && d@ == v && final(buf)@ == rest,
                Err(e) => r matches Err(x) && x@ == e,
            },
    {
        let storage_id = match get_u32(buf) {
            Ok(v) => v,
            Err(e) => return Err(e),
        };
        let object_format = match get_u16(buf) {
            Ok(v) => v,
            Err(e) => return Err(e),
        };
        let protection_status = match get_u16(buf) {
            Ok(v) => v,
            Err(e) => return Err(e),
        };
        let compressed_size = match get_u32(buf) {
            Ok(v) => v,
            Err(e) => return Err(e),
        };
        let thumb_format = match get_u16(buf) {
            Ok(v) => v,
            Err(e) => return Err(e),
        };
        let thumb_compressed_size = match get_u32(buf) {
            Ok(v) => v,
            Err(e) => return Err(e),
        };
        let thumb_pix_width = match get_u32(buf) {
            Ok(v) => v,
            Err(e) => return Err(e),
        };
        let thumb_pix_height = match get_u32(buf) {
            Ok(v) => v,
            Err(e) => return Err(e),
        };
        let image_pix_width = match get_u32(buf) {
            Ok(v) => v,
            Err(e) => return Err(e),
        };
        let image_pix_height = match get_u32(buf) {
            Ok(v) => v,
            Err(e) => return Err(e),
        };
        let image_bit_depth = match get_u32(buf) {
            Ok(v) => v,
            Err(e) => return Err(e),
        };
        let parent_object = match get_u32(buf) {
            Ok(v) => v,
            Err(e) => return Err(e),
        };
        let association_type = match get_u16(buf) {
            Ok(v) => v,
            Err(e) => return Err(e),
        };
        let association_desc = match get_u32(buf) {
            Ok(v) => v,
            Err(e) => return Err(e),
        };
        let sequence_number = match get_u32(buf) {
            Ok(v) => v,
            Err(e) => return Err(e),
        };
        let filename = match get_str(buf) {
            Ok(v) => v,
            Err(e) => return Err(e),
        };
        let capture_date = match decode_date_field(buf) {
            Ok(v) => v,
            Err(e) => return Err(e),
        };
        let modification_date = match decode_date_field(buf) {
            Ok(v) => v,
            Err(e) => return Err(e),
        };
        let keywords = match get_str(buf) {
            Ok(v) => v,
            Err(e) => return Err(e),
        };
        Ok(ObjectInfo {
            storage_id,
            object_format,
            protection_status,
            compressed_size,
            thumb_format,
            thumb_compressed_size,
            thumb_pix_width,
            thumb_pix_height,
            image_pix_width,
            image_pix_height,
            image_bit_depth,
            parent_object,
            association_type,
            association_desc,
            sequence_number,
            filename,
            capture_date,
            modification_date,
            keywords,
        })
    }
}

/// The bytes of a date field: an empty PTP string for `None`, else the
/// `YYYYMMDDThhmmss` form (empty too for an instant before the epoch).
pub open spec fn date_bytes(t: Option<i64>) -> Seq<u8> {
    match t {
        None => ptp_string_bytes(Seq::empty()),
        Some(t) => ptp_string_bytes(datetime_field_chars(t as int)),
    }
}

/// Reading a date field: a PTP string, absent when empty, else parsed.
pub open spec fn rd_date(b: Seq<u8>) -> Result<(Option<i64>, Seq<u8>), ProtoErrorView> {
    match rd_str(b) {
        Err(e) => Err(e),
        Ok((s, r)) => if s.len() == 0 {
            Ok((None, r))
        } else {
            match datetime_value(s) {
                Some(t) => Ok((Some(t as i64), r)),
                None => Err(ProtoErrorView::BadDate(s)),
            }
        },
    }
}

fn decode_date_field(buf: &mut &[u8]) -> (r: Result<Option<i64>, ProtoError>)
    ensures
        match rd_date(old(buf)@) {
            Ok((v, rest)) => r == Ok::<Option<i64>, ProtoError>(v) && final(buf)@ == rest,
            Err(e) => r matches Err(x) && x@ == e,
        },
{
    let s = match get_str(buf) {
        Ok(s) => s,
        Err(e) => return Err(e),
    };
    if s.as_str().is_empty() {
        Ok(None)
    } else {
        match decode_datetime(s.as_str()) {
            Ok(t) => Ok(Some(t)),
            Err(e) => Err(e),
        }
    }
}

fn encode_date_field(t: Option<i64>, out: &mut Vec<u8>)
    ensures
        final(out)@ == old(out)@ + date_bytes(t),
{
    match t {
        None => {
            encode_string("", out);
            proof {
                reveal_strlit("");
            }
        },
        Some(t) => encode_datetime(t, out),
    }
}

/// The wire bytes of an object description, field by field.
pub open spec fn object_info_bytes(v: ObjectInfoView) -> Seq<u8> {
    le_u(v.storage_id as int, 4) + le_u(v.object_format as int, 2) + le_u(v.protection_status as int, 2) + le_u(v.compressed_size as int, 4) + le_u(v.thumb_format as int, 2) + le_u(v.thumb_compressed_size as int, 4) + le_u(v.thumb_pix_width as int, 4) + le_u(v.thumb_pix_height as int, 4) + le_u(v.image_pix_width as int, 4) + le_u(v.image_pix_height as int, 4) + le_u(v.image_bit_depth as int, 4) + le_u(v.parent_object as int, 4) + le_u(v.association_type as int, 2) + le_u(v.association_desc as int, 4) + le_u(v.sequence_number as int, 4) + ptp_string_bytes(v.filename) + date_bytes(v.capture_date) + date_bytes(v.modification_date) + ptp_string_bytes(v.keywords)
}

impl ObjectInfo {
    /// Encode the object description (see [`object_info_bytes`]).
    pub fn encode(&self, out: &mut Vec<u8>)
        ensures
            final(out)@ == old(out)@ + object_info_bytes(self@),
    {
        write_u32(self.storage_id, out);
        proof {
            assert(out@ =~= old(out)@ + (le_u(self@.storage_id as int, 4)));
        }
        write_u16(self.object_format, out);
        proof {
            assert(out@ =~= old(out)@ + (le_u(self@.storage_id as int, 4) + le_u(self@.object_format as int, 2)));
        }
        write_u16(self.protection_status, out);
        proof {
            assert(out@ =~= old(out)@ + (le_u(self@.storage_id as int, 4) + le_u(self@.object_format as int, 2) + le_u(self@.protection_status as int, 2)));
        }
        write_u32(self.compressed_size, out);
        proof {
            assert(out@ =~= old(out)@ + (le_u(self@.storage_id as int, 4) + le_u(self@.object_format as int, 2) + le_u(self@.protection_status as int, 2) + le_u(self@.compressed_size as int, 4)));
        }
        write_u16(self.thumb_format, out);
        proof {
            assert(out@ =~= old(out)@ + (le_u(self@.storage_id as int, 4) + le_u(self@.object_format as int, 2) + le_u(self@.protection_status as int, 2) + le_u(self@.compressed_size as int, 4) + le_u(self@.thumb_format as int, 2)));
        }
        write_u32(self.thumb_compressed_size, out);
        proof {
            assert(out@ =~= old(out)@ + (le_u(self@.storage_id as int, 4) + le_u(self@.object_format as int, 2) + le_u(self@.protection_status as int, 2) + le_u(self@.compressed_size as int, 4) + le_u(self@.thumb_format as int, 2) + le_u(self@.thumb_compressed_size as int, 4)));
        }
        write_u32(self.thumb_pix_width, out);
        proof {
            assert(out@ =~= old(out)@ + (le_u(self@.storage_id as int, 4) + le_u(self@.object_format as int, 2) + le_u(self@.protection_status as int, 2) + le_u(self@.compressed_size as int, 4) + le_u(self@.thumb_format as int, 2) + le_u(self@.thumb_compressed_size as int, 4) + le_u(self@.thumb_pix_width as int, 4)));
        }
        write_u32(self.thumb_pix_height, out);
        proof {
            assert(out@ =~= old(out)@ + (le_u(self@.storage_id as int, 4) + le_u(self@.object_format as int, 2) + le_u(self@.protection_status as int, 2) + le_u(self@.compressed_size as int, 4) + le_u(self@.thumb_format as int, 2) + le_u(self@.thumb_compressed_size as int, 4) + le_u(self@.thumb_pix_width as int, 4) + le_u(self@.thumb_pix_height as int, 4)));
        }
        write_u32(self.image_pix_width, out);
        proof {
            assert(out@ =~= old(out)@ + (le_u(self@.storage_id as int, 4) + le_u(self@.object_format as int, 2) + le_u(self@.protection_status as int, 2) + le_u(self@.compressed_size as int, 4) + le_u(self@.thumb_format as int, 2) + le_u(self@.thumb_compressed_size as int, 4) + le_u(self@.thumb_pix_width as int, 4) + le_u(self@.thumb_pix_height as int, 4) + le_u(self@.image_pix_width as int, 4)));
        }
        write_u32(self.image_pix_height, out);
        proof {
            assert(out@ =~= old(out)@ + (le_u(self@.storage_id as int, 4) + le_u(self@.object_format as int, 2) + le_u(self@.protection_status as int, 2) + le_u(self@.compressed_size as int, 4) + le_u(self@.thumb_format as int, 2) + le_u(self@.thumb_compressed_size as int, 4) + le_u(self@.thumb_pix_width as int, 4) + le_u(self@.thumb_pix_height as int, 4) + le_u(self@.image_pix_width as int, 4) + le_u(self@.image_pix_height as int, 4)));
        }
        write_u32(self.image_bit_depth, out);
        proof {
            assert(out@ =~= old(out)@ + (le_u(self@.storage_id as int, 4) + le_u(self@.object_format as int, 2) + le_u(self@.protection_status as int, 2) + le_u(self@.compressed_size as int, 4) + le_u(self@.thumb_format as int, 2) + le_u(self@.thumb_compressed_size as int, 4) + le_u(self@.thumb_pix_width as int, 4) + le_u(self@.thumb_pix_height as int, 4) + le_u(self@.image_pix_width as int, 4) + le_u(self@.image_pix_height as int, 4) + le_u(self@.image_bit_depth as int, 4)));
        }
        write_u32(self.parent_object, out);
        proof {
            assert(out@ =~= old(out)@ + (le_u(self@.storage_id as int, 4) + le_u(self@.object_format as int, 2) + le_u(self@.protection_status as int, 2) + le_u(self@.compressed_size as int, 4) + le_u(self@.thumb_format as int, 2) + le_u(self@.thumb_compressed_size as int, 4) + le_u(self@.thumb_pix_width as int, 4) + le_u(self@.thumb_pix_height as int, 4) + le_u(self@.image_pix_width as int, 4) + le_u(self@.image_pix_height as int, 4) + le_u(self@.image_bit_depth as int, 4) + le_u(self@.parent_object as int, 4)));
        }
        write_u16(self.association_type, out);
        proof {
            assert(out@ =~= old(out)@ + (le_u(self@.storage_id as int, 4) + le_u(self@.object_format as int, 2) + le_u(self@.protection_status as int, 2) + le_u(self@.compressed_size as int, 4) + le_u(self@.thumb_format as int, 2) + le_u(self@.thumb_compressed_size as int, 4) + le_u(self@.thumb_pix_width as int, 4) + le_u(self@.thumb_pix_height as int, 4) + le_u(self@.image_pix_width as int, 4) + le_u(self@.image_pix_height as int, 4) + le_u(self@.image_bit_depth as int, 4) + le_u(self@.parent_object as int, 4) + le_u(self@.association_type as int, 2)));
        }
        write_u32(self.association_desc, out);
        proof {
            assert(out@ =~= old(out)@ + (le_u(self@.storage_id as int, 4) + le_u(self@.object_format as int, 2) + le_u(self@.protection_status as int, 2) + le_u(self@.compressed_size as int, 4) + le_u(self@.thumb_format as int, 2) + le_u(self@.thumb_compressed_size as int, 4) + le_u(self@.thumb_pix_width as int, 4) + le_u(self@.thumb_pix_height as int, 4) + le_u(self@.image_pix_width as int, 4) + le_u(self@.image_pix_height as int, 4) + le_u(self@.image_bit_depth as int, 4) + le_u(self@.parent_object as int, 4) + le_u(self@.association_type as int, 2) + le_u(self@.association_desc as int, 4)));
        }
        write_u32(self.sequence_number, out);
        proof {
            assert(out@ =~= old(out)@ + (le_u(self@.storage_id as int, 4) + le_u(self@.object_format as int, 2) + le_u(self@.protection_status as int, 2) + le_u(self@.compressed_size as int, 4) + le_u(self@.thumb_format as int, 2) + le_u(self@.thumb_compressed_size as int, 4) + le_u(self@.thumb_pix_width as int, 4) + le_u(self@.thumb_pix_height as int, 4) + le_u(self@.image_pix_width as int, 4) + le_u(self@.image_pix_height as int, 4) + le_u(self@.image_bit_depth as int, 4) + le_u(self@.parent_object as int, 4) + le_u(self@.association_type as int, 2) + le_u(self@.association_desc as int, 4) + le_u(self@.sequence_number as int, 4)));
        }
        encode_string(self.filename.as_str(), out);
        proof {
            assert(out@ =~= old(out)@ + (le_u(self@.storage_id as int, 4) + le_u(self@.object_format as int, 2) + le_u(self@.protection_status as int, 2) + le_u(self@.compressed_size as int, 4) + le_u(self@.thumb_format as int, 2) + le_u(self@.thumb_compressed_size as int, 4) + le_u(self@.thumb_pix_width as int, 4) + le_u(self@.thumb_pix_height as int, 4) + le_u(self@.image_pix_width as int, 4) + le_u(self@.image_pix_height as int, 4) + le_u(self@.image_bit_depth as int, 4) + le_u(self@.parent_object as int, 4) + le_u(self@.association_type as int, 2) + le_u(self@.association_desc as int, 4) + le_u(self@.sequence_number as int, 4) + ptp_string_bytes(self@.filename)));
        }
        encode_date_field(self.capture_date, out);
        proof {
            assert(out@ =~= old(out)@ + (le_u(self@.storage_id as int, 4) + le_u(self@.object_format as int, 2) + le_u(self@.protection_status as int, 2) + le_u(self@.compressed_size as int, 4) + le_u(self@.thumb_format as int, 2) + le_u(self@.thumb_compressed_size as int, 4) + le_u(self@.thumb_pix_width as int, 4) + le_u(self@.thumb_pix_height as int, 4) + le_u(self@.image_pix_width as int, 4) + le_u(self@.image_pix_height as int, 4) + le_u(self@.image_bit_depth as int, 4) + le_u(self@.parent_object as int, 4) + le_u(self@.association_type as int, 2) + le_u(self@.association_desc as int, 4) + le_u(self@.sequence_number as int, 4) + ptp_string_bytes(self@.filename) + date_bytes(self@.capture_date)));
        }
        encode_date_field(self.modification_date, out);
        proof {
            assert(out@ =~= old(out)@ + (le_u(self@.storage_id as int, 4) + le_u(self@.object_format as int, 2) + le_u(self@.protection_status as int, 2) + le_u(self@.compressed_size as int, 4) + le_u(self@.thumb_format as int, 2) + le_u(self@.thumb_compressed_size as int, 4) + le_u(self@.thumb_pix_width as int, 4) + le_u(self@.thumb_pix_height as int, 4) + le_u(self@.image_pix_width as int, 4) + le_u(self@.image_pix_height as int, 4) + le_u(self@.image_bit_depth as int, 4) + le_u(self@.parent_object as int, 4) + le_u(self@.association_type as int, 2) + le_u(self@.association_desc as int, 4) + le_u(self@.sequence_number as int, 4) + ptp_string_bytes(self@.filename) + date_bytes(self@.capture_date) + date_bytes(self@.modification_date)));
        }
        encode_string(self.keywords.as_str(), out);
        proof {
            assert(out@ =~= old(out)@ + (le_u(self@.storage_id as int, 4) + le_u(self@.object_format as int, 2) + le_u(self@.protection_status as int, 2) + le_u(self@.compressed_size as int, 4) + le_u(self@.thumb_format as int, 2) + le_u(self@.thumb_compressed_size as int, 4) + le_u(self@.thumb_pix_width as int, 4) + le_u(self@.thumb_pix_height as int, 4) + le_u(self@.image_pix_width as int, 4) + le_u(self@.image_pix_height as int, 4) + le_u(self@.image_bit_depth as int, 4) + le_u(self@.parent_object as int, 4) + le_u(self@.association_type as int, 2) + le_u(self@.association_desc as int, 4) + le_u(self@.sequence_number as int, 4) + ptp_string_bytes(self@.filename) + date_bytes(self@.capture_date) + date_bytes(self@.modification_date) + ptp_string_bytes(self@.keywords)));
        }
    }
}

} // verus!
