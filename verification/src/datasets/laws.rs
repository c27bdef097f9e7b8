//! Round-trip laws of the datasets that are both encoded and decoded.
use vstd::prelude::*;
use crate::codec::le_u;
use crate::datetime::{datetime_field_chars, max_four_digit_year_secs, ptp_datetime_chars};
use crate::datetime_law::lemma_datetime_roundtrip;
use crate::error::ProtoErrorView;
use crate::utf16::{
    lemma_utf16_of_char_shape, max_content_units, ptp_string_bytes, utf16_encode, utf16_of_char,
};
use super::object_info::{ObjectInfoView, date_bytes, object_info_bytes, object_info_read, rd_date};
use super::storage_info::{StorageInfoView, storage_info_read};
use super::device_info::{DeviceInfoView, device_info_read};
use super::reader::{lemma_rd_u8_of, rd_u16_array};
use super::prop_desc::{DevicePropDescView, ObjectPropDescView, PropFormView, device_prop_desc_read, object_prop_desc_read};
use super::prop_value::{PropValueView, prop_value_bytes};
use super::value_laws::{lemma_prop_value_roundtrip, prop_value_readable, prop_value_type};
use crate::consts::DataType;
use super::value_laws::lemma_u16_array_roundtrip;
use crate::codec::{array_bytes, u16_ints};
use super::reader::{
    lemma_rd_str_of, lemma_rd_u16_of, lemma_rd_u32_of, lemma_rd_u64_of, rd_str, rd_u64,
};

verus! {

/// The UTF-16 form of a string has at most two units per character.
proof fn lemma_utf16_len_bound(s: Seq<char>)
    ensures
        utf16_encode(s).len() <= 2 * s.len(),
    decreases s.len(),
{
    if s.len() > 0 {
        lemma_utf16_len_bound(s.drop_first());
        lemma_utf16_of_char_shape(s[0]);
    }
}

/// Whether a date field survives encoding: absent, or an instant from the
/// epoch through the end of year 9999.
pub open spec fn date_encodable(d: Option<i64>) -> bool {
    match d {
        None => true,
        Some(t) => 0 <= t <= max_four_digit_year_secs(),
    }
}

/// A date field that survives encoding reads back, leaving what follows.
pub proof fn lemma_rd_date_of(d: Option<i64>, rest: Seq<u8>)
    requires
        date_encodable(d),
    ensures
        rd_date(date_bytes(d) + rest) == Ok::<(Option<i64>, Seq<u8>), ProtoErrorView>((d, rest)),
{
    match d {
        None => {
            assert(utf16_encode(Seq::<char>::empty()).len() == 0);
            lemma_rd_str_of(Seq::empty(), rest);
        },
        Some(t) => {
            lemma_datetime_roundtrip(t as int);
            let s = ptp_datetime_chars(t as int);
            assert(datetime_field_chars(t as int) == s);
            lemma_utf16_len_bound(s);
            lemma_rd_str_of(s, rest);
        },
    }
}

/// Whether an object description survives encoding: both strings within the
/// PTP length limit and both dates encodable.
pub open spec fn object_info_encodable(v: ObjectInfoView) -> bool {
    &&& utf16_encode(v.filename).len() <= max_content_units()
    &&& utf16_encode(v.keywords).len() <= max_content_units()
    &&& date_encodable(v.capture_date)
    &&& date_encodable(v.modification_date)
}

/// The encoded bytes of an object description followed by `tail`, one
/// field after another.
proof fn lemma_object_info_bytes_split(v: ObjectInfoView, tail: Seq<u8>)
    ensures
        object_info_bytes(v) + tail == ({
            let p1 = le_u(v.storage_id as int, 4);
            let p2 = le_u(v.object_format as int, 2);
            let p3 = le_u(v.protection_status as int, 2);
            let p4 = le_u(v.compressed_size as int, 4);
            let p5 = le_u(v.thumb_format as int, 2);
            let p6 = le_u(v.thumb_compressed_size as int, 4);
            let p7 = le_u(v.thumb_pix_width as int, 4);
            let p8 = le_u(v.thumb_pix_height as int, 4);
            let p9 = le_u(v.image_pix_width as int, 4);
            let p10 = le_u(v.image_pix_height as int, 4);
            let p11 = le_u(v.image_bit_depth as int, 4);
            let p12 = le_u(v.parent_object as int, 4);
            let p13 = le_u(v.association_type as int, 2);
            let p14 = le_u(v.association_desc as int, 4);
            let p15 = le_u(v.sequence_number as int, 4);
            let p16 = ptp_string_bytes(v.filename);
            let p17 = date_bytes(v.capture_date);
            let p18 = date_bytes(v.modification_date);
            let p19 = ptp_string_bytes(v.keywords);
            (p1 + (p2 + (p3 + (p4 + (p5 + (p6 + (p7 + (p8 + (p9 + (p10 + (p11 + (p12 + (p13 + (p14 + (p15 + (p16 + (p17 + (p18 + (p19 + tail)))))))))))))))))))
        }),
{
    let p1 = le_u(v.storage_id as int, 4);
    let p2 = le_u(v.object_format as int, 2);
    let p3 = le_u(v.protection_status as int, 2);
    let p4 = le_u(v.compressed_size as int, 4);
    let p5 = le_u(v.thumb_format as int, 2);
    let p6 = le_u(v.thumb_compressed_size as int, 4);
    let p7 = le_u(v.thumb_pix_width as int, 4);
    let p8 = le_u(v.thumb_pix_height as int, 4);
    let p9 = le_u(v.image_pix_width as int, 4);
    let p10 = le_u(v.image_pix_height as int, 4);
    let p11 = le_u(v.image_bit_depth as int, 4);
    let p12 = le_u(v.parent_object as int, 4);
    let p13 = le_u(v.association_type as int, 2);
    let p14 = le_u(v.association_desc as int, 4);
    let p15 = le_u(v.sequence_number as int, 4);
    let p16 = ptp_string_bytes(v.filename);
    let p17 = date_bytes(v.capture_date);
    let p18 = date_bytes(v.modification_date);
    let p19 = ptp_string_bytes(v.keywords);
    let r20 = tail;
    let r19 = p19 + r20;
    let r18 = p18 + r19;
    let r17 = p17 + r18;
    let r16 = p16 + r17;
    let r15 = p15 + r16;
    let r14 = p14 + r15;
    let r13 = p13 + r14;
    let r12 = p12 + r13;
    let r11 = p11 + r12;
    let r10 = p10 + r11;
    let r9 = p9 + r10;
    let r8 = p8 + r9;
    let r7 = p7 + r8;
    let r6 = p6 + r7;
    let r5 = p5 + r6;
    let r4 = p4 + r5;
    let r3 = p3 + r4;
    let r2 = p2 + r3;
    let r1 = p1 + r2;
    let b1 = p1;
    let b2 = b1 + p2;
    let b3 = b2 + p3;
    let b4 = b3 + p4;
    let b5 = b4 + p5;
    let b6 = b5 + p6;
    let b7 = b6 + p7;
    let b8 = b7 + p8;
    let b9 = b8 + p9;
    let b10 = b9 + p10;
    let b11 = b10 + p11;
    let b12 = b11 + p12;
    let b13 = b12 + p13;
    let b14 = b13 + p14;
    let b15 = b14 + p15;
    let b16 = b15 + p16;
    let b17 = b16 + p17;
    let b18 = b17 + p18;
    let b19 = b18 + p19;
    assert(b19 == object_info_bytes(v));
    vstd::seq_lib::lemma_concat_associative(b18, p19, r20);
    vstd::seq_lib::lemma_concat_associative(b17, p18, r19);
    vstd::seq_lib::lemma_concat_associative(b16, p17, r18);
    vstd::seq_lib::lemma_concat_associative(b15, p16, r17);
    vstd::seq_lib::lemma_concat_associative(b14, p15, r16);
    vstd::seq_lib::lemma_concat_associative(b13, p14, r15);
    vstd::seq_lib::lemma_concat_associative(b12, p13, r14);
    vstd::seq_lib::lemma_concat_associative(b11, p12, r13);
    vstd::seq_lib::lemma_concat_associative(b10, p11, r12);
    vstd::seq_lib::lemma_concat_associative(b9, p10, r11);
    vstd::seq_lib::lemma_concat_associative(b8, p9, r10);
    vstd::seq_lib::lemma_concat_associative(b7, p8, r9);
    vstd::seq_lib::lemma_concat_associative(b6, p7, r8);
    vstd::seq_lib::lemma_concat_associative(b5, p6, r7);
    vstd::seq_lib::lemma_concat_associative(b4, p5, r6);
    vstd::seq_lib::lemma_concat_associative(b3, p4, r5);
    vstd::seq_lib::lemma_concat_associative(b2, p3, r4);
    vstd::seq_lib::lemma_concat_associative(b1, p2, r3);
}

/// Decoding what encoding an object description wrote gives the description
/// back and leaves the cursor just past it.
#[verifier::rlimit(50)]
pub proof fn lemma_object_info_roundtrip(v: ObjectInfoView, tail: Seq<u8>)
    requires
        object_info_encodable(v),
    ensures
        object_info_read(object_info_bytes(v) + tail) == Ok::<(ObjectInfoView, Seq<u8>), ProtoErrorView>((v, tail)),
{
    lemma_object_info_bytes_split(v, tail);
    let p1 = le_u(v.storage_id as int, 4);
    let p2 = le_u(v.object_format as int, 2);
    let p3 = le_u(v.protection_status as int, 2);
    let p4 = le_u(v.compressed_size as int, 4);
    let p5 = le_u(v.thumb_format as int, 2);
    let p6 = le_u(v.thumb_compressed_size as int, 4);
    let p7 = le_u(v.thumb_pix_width as int, 4);
    let p8 = le_u(v.thumb_pix_height as int, 4);
    let p9 = le_u(v.image_pix_width as int, 4);
    let p10 = le_u(v.image_pix_height as int, 4);
    let p11 = le_u(v.image_bit_depth as int, 4);
    let p12 = le_u(v.parent_object as int, 4);
    let p13 = le_u(v.association_type as int, 2);
    let p14 = le_u(v.association_desc as int, 4);
    let p15 = le_u(v.sequence_number as int, 4);
    let p16 = ptp_string_bytes(v.filename);
    let p17 = date_bytes(v.capture_date);
    let p18 = date_bytes(v.modification_date);
    let p19 = ptp_string_bytes(v.keywords);
    let r20 = tail;
    let r19 = p19 + r20;
    let r18 = p18 + r19;
    let r17 = p17 + r18;
    let r16 = p16 + r17;
    let r15 = p15 + r16;
    let r14 = p14 + r15;
    let r13 = p13 + r14;
    let r12 = p12 + r13;
    let r11 = p11 + r12;
    let r10 = p10 + r11;
    let r9 = p9 + r10;
    let r8 = p8 + r9;
    let r7 = p7 + r8;
    let r6 = p6 + r7;
    let r5 = p5 + r6;
    let r4 = p4 + r5;
    let r3 = p3 + r4;
    let r2 = p2 + r3;
    let r1 = p1 + r2;
    lemma_rd_u32_of(v.storage_id, r2);
    lemma_rd_u16_of(v.object_format, r3);
    lemma_rd_u16_of(v.protection_status, r4);
    lemma_rd_u32_of(v.compressed_size, r5);
    lemma_rd_u16_of(v.thumb_format, r6);
    lemma_rd_u32_of(v.thumb_compressed_size, r7);
    lemma_rd_u32_of(v.thumb_pix_width, r8);
    lemma_rd_u32_of(v.thumb_pix_height, r9);
    lemma_rd_u32_of(v.image_pix_width, r10);
    lemma_rd_u32_of(v.image_pix_height, r11);
    lemma_rd_u32_of(v.image_bit_depth, r12);
    lemma_rd_u32_of(v.parent_object, r13);
    lemma_rd_u16_of(v.association_type, r14);
    lemma_rd_u32_of(v.association_desc, r15);
    lemma_rd_u32_of(v.sequence_number, r16);
    lemma_rd_str_of(v.filename, r17);
    lemma_rd_date_of(v.capture_date, r18);
    lemma_rd_date_of(v.modification_date, r19);
    lemma_rd_str_of(v.keywords, r20);
}

/// Decoding an encoded 64-bit value gives it back.
pub proof fn lemma_uint64_value_roundtrip(x: u64, tail: Seq<u8>)
    ensures
        rd_u64(le_u(x as int, 8) + tail) == Ok::<(u64, Seq<u8>), ProtoErrorView>((x, tail)),
{
    lemma_rd_u64_of(x, tail);
}

/// Decoding an encoded string value gives it back, for every string within
/// the PTP length limit.
pub proof fn lemma_string_value_roundtrip(s: Seq<char>, tail: Seq<u8>)
    requires
        utf16_encode(s).len() <= max_content_units(),
    ensures
        rd_str(ptp_string_bytes(s) + tail) == Ok::<(Seq<char>, Seq<u8>), ProtoErrorView>((s, tail)),
{
    lemma_rd_str_of(s, tail);
}


/// A StorageInfo dataset laid out field by field on the wire (storage type,
/// filesystem type and access capability as 16-bit words, the maximum
/// capacity and free space as 64-bit words, the free image count as a 32-bit
/// word, then the description and the volume label as PTP strings) reads
/// back with each wire field in its own field, leaving what follows.
pub proof fn lemma_storage_info_layout(
    st: u16,
    fs: u16,
    ac: u16,
    max: u64,
    free: u64,
    imgs: u32,
    desc: Seq<char>,
    label: Seq<char>,
    tail: Seq<u8>,
)
    requires
        utf16_encode(desc).len() <= max_content_units(),
        utf16_encode(label).len() <= max_content_units(),
    ensures
        storage_info_read(
            le_u(st as int, 2) + le_u(fs as int, 2) + le_u(ac as int, 2) + le_u(max as int, 8) + le_u(free as int, 8)
                + le_u(imgs as int, 4) + ptp_string_bytes(desc) + ptp_string_bytes(label) + tail,
        ) == Ok::<(StorageInfoView, Seq<u8>), ProtoErrorView>((
            StorageInfoView {
                storage_type: st,
                filesystem_type: fs,
                access_capability: ac,
                max_capability: max,
                free_space_in_bytes: free,
                free_space_in_images: imgs,
                storage_description: desc,
                volume_label: label,
            },
            tail,
        )),
{
    let r8 = ptp_string_bytes(label) + tail;
    let r7 = ptp_string_bytes(desc) + r8;
    let r6 = le_u(imgs as int, 4) + r7;
    let r5 = le_u(free as int, 8) + r6;
    let r4 = le_u(max as int, 8) + r5;
    let r3 = le_u(ac as int, 2) + r4;
    let r2 = le_u(fs as int, 2) + r3;
    let r1 = le_u(st as int, 2) + r2;
    assert(r1 =~= le_u(st as int, 2) + le_u(fs as int, 2) + le_u(ac as int, 2) + le_u(max as int, 8) + le_u(
        free as int,
        8,
    ) + le_u(imgs as int, 4) + ptp_string_bytes(desc) + ptp_string_bytes(label) + tail);
    lemma_rd_u16_of(st, r2);
    lemma_rd_u16_of(fs, r3);
    lemma_rd_u16_of(ac, r4);
    lemma_rd_u64_of(max, r5);
    lemma_rd_u64_of(free, r6);
    lemma_rd_u32_of(imgs, r7);
    lemma_rd_str_of(desc, r8);
    lemma_rd_str_of(label, tail);
}


/// A count-prefixed `u16` array within the count's range reads back,
/// leaving what follows.
pub proof fn lemma_rd_u16_array_of(a: Seq<u16>, tail: Seq<u8>)
    requires
        a.len() <= u32::MAX,
        a.len() * 2 <= usize::MAX,
    ensures
        rd_u16_array(array_bytes(u16_ints(a), 2) + tail) == Ok::<(Seq<u16>, Seq<u8>), ProtoErrorView>((a, tail)),
{
    reveal(rd_u16_array);
    lemma_u16_array_roundtrip(a, tail);
}

/// Whether a `u16` array fits its count and the address space.
pub open spec fn u16_array_fits(a: Seq<u16>) -> bool {
    a.len() <= u32::MAX && a.len() * 2 <= usize::MAX
}

/// Whether a string fits the PTP length limit.
pub open spec fn ptp_string_fits(s: Seq<char>) -> bool {
    utf16_encode(s).len() <= max_content_units()
}

/// A DeviceInfo dataset laid out field by field on the wire (standard
/// version, vendor extension ID, MTP version, extension description,
/// functional mode, the five code lists as count-prefixed `u16` arrays, then
/// manufacturer, model, device version and serial number as PTP strings)
/// reads back with each wire field in its own field, leaving what follows.
#[verifier::spinoff_prover]
#[verifier::rlimit(40)]
pub proof fn lemma_device_info_layout(v: DeviceInfoView, tail: Seq<u8>)
    requires
        ptp_string_fits(v.mtp_extension),
        u16_array_fits(v.operations_supported),
        u16_array_fits(v.events_supported),
        u16_array_fits(v.device_properties_supported),
        u16_array_fits(v.capture_formats),
        u16_array_fits(v.playback_formats),
        ptp_string_fits(v.manufacturer),
        ptp_string_fits(v.model),
        ptp_string_fits(v.device_version),
        ptp_string_fits(v.serial_number),
    ensures
        device_info_read(
            le_u(v.standard_version as int, 2) + le_u(v.mtp_vendor_extension_id as int, 4) + le_u(
                v.mtp_version as int,
                2,
            ) + ptp_string_bytes(v.mtp_extension) + le_u(v.functional_mode as int, 2) + array_bytes(
                u16_ints(v.operations_supported),
                2,
            ) + array_bytes(u16_ints(v.events_supported), 2) + array_bytes(
                u16_ints(v.device_properties_supported),
                2,
            ) + array_bytes(u16_ints(v.capture_formats), 2) + array_bytes(u16_ints(v.playback_formats), 2)
                + ptp_string_bytes(v.manufacturer) + ptp_string_bytes(v.model) + ptp_string_bytes(v.device_version)
                + ptp_string_bytes(v.serial_number) + tail,
        ) == Ok::<(DeviceInfoView, Seq<u8>), ProtoErrorView>((v, tail)),
{
    let r14 = ptp_string_bytes(v.serial_number) + tail;
    let r13 = ptp_string_bytes(v.device_version) + r14;
    let r12 = ptp_string_bytes(v.model) + r13;
    let r11 = ptp_string_bytes(v.manufacturer) + r12;
    let r10 = array_bytes(u16_ints(v.playback_formats), 2) + r11;
    let r9 = array_bytes(u16_ints(v.capture_formats), 2) + r10;
    let r8 = array_bytes(u16_ints(v.device_properties_supported), 2) + r9;
    let r7 = array_bytes(u16_ints(v.events_supported), 2) + r8;
    let r6 = array_bytes(u16_ints(v.operations_supported), 2) + r7;
    let r5 = le_u(v.functional_mode as int, 2) + r6;
    let r4 = ptp_string_bytes(v.mtp_extension) + r5;
    let r3 = le_u(v.mtp_version as int, 2) + r4;
    let r2 = le_u(v.mtp_vendor_extension_id as int, 4) + r3;
    let r1 = le_u(v.standard_version as int, 2) + r2;
    let p1 = le_u(v.standard_version as int, 2);
    let p2 = le_u(v.mtp_vendor_extension_id as int, 4);
    let p3 = le_u(v.mtp_version as int, 2);
    let p4 = ptp_string_bytes(v.mtp_extension);
    let p5 = le_u(v.functional_mode as int, 2);
    let p6 = array_bytes(u16_ints(v.operations_supported), 2);
    let p7 = array_bytes(u16_ints(v.events_supported), 2);
    let p8 = array_bytes(u16_ints(v.device_properties_supported), 2);
    let p9 = array_bytes(u16_ints(v.capture_formats), 2);
    let p10 = array_bytes(u16_ints(v.playback_formats), 2);
    let p11 = ptp_string_bytes(v.manufacturer);
    let p12 = ptp_string_bytes(v.model);
    let p13 = ptp_string_bytes(v.device_version);
    let p14 = ptp_string_bytes(v.serial_number);
    let l2 = p1 + p2;
    let l3 = l2 + p3;
    let l4 = l3 + p4;
    let l5 = l4 + p5;
    let l6 = l5 + p6;
    let l7 = l6 + p7;
    let l8 = l7 + p8;
    let l9 = l8 + p9;
    let l10 = l9 + p10;
    let l11 = l10 + p11;
    let l12 = l11 + p12;
    let l13 = l12 + p13;
    let l14 = l13 + p14;
    vstd::seq_lib::lemma_concat_associative(l13, p14, tail);
    vstd::seq_lib::lemma_concat_associative(l12, p13, r14);
    vstd::seq_lib::lemma_concat_associative(l11, p12, r13);
    vstd::seq_lib::lemma_concat_associative(l10, p11, r12);
    vstd::seq_lib::lemma_concat_associative(l9, p10, r11);
    vstd::seq_lib::lemma_concat_associative(l8, p9, r10);
    vstd::seq_lib::lemma_concat_associative(l7, p8, r9);
    vstd::seq_lib::lemma_concat_associative(l6, p7, r8);
    vstd::seq_lib::lemma_concat_associative(l5, p6, r7);
    vstd::seq_lib::lemma_concat_associative(l4, p5, r6);
    vstd::seq_lib::lemma_concat_associative(l3, p4, r5);
    vstd::seq_lib::lemma_concat_associative(l2, p3, r4);
    vstd::seq_lib::lemma_concat_associative(p1, p2, r3);
    assert(l14 + tail == r1);
    lemma_rd_u16_of(v.standard_version, r2);
    lemma_rd_u32_of(v.mtp_vendor_extension_id, r3);
    lemma_rd_u16_of(v.mtp_version, r4);
    lemma_rd_str_of(v.mtp_extension, r5);
    lemma_rd_u16_of(v.functional_mode, r6);
    lemma_rd_u16_array_of(v.operations_supported, r7);
    lemma_rd_u16_array_of(v.events_supported, r8);
    lemma_rd_u16_array_of(v.device_properties_supported, r9);
    lemma_rd_u16_array_of(v.capture_formats, r10);
    lemma_rd_u16_array_of(v.playback_formats, r11);
    lemma_rd_str_of(v.manufacturer, r12);
    lemma_rd_str_of(v.model, r13);
    lemma_rd_str_of(v.device_version, r14);
    lemma_rd_str_of(v.serial_number, tail);
}


/// Whether `v` reads back under data type `t`.
pub open spec fn value_of_type(v: PropValueView, t: u16) -> bool {
    prop_value_readable(v) && prop_value_type(v) == t
}

/// An object property description with a range form, laid out on the wire
/// as property code and data type (16 bits), get/set (8 bits), the factory
/// default value, group code (32 bits), form flag 1 (8 bits), then minimum,
/// maximum and step, all values of the described type, reads back field by
/// field, leaving what follows.
#[verifier::spinoff_prover]
#[verifier::rlimit(40)]
pub proof fn lemma_object_prop_desc_range_layout(
    code: u16,
    t: u16,
    gs: u8,
    dflt: PropValueView,
    group: u32,
    min: PropValueView,
    max: PropValueView,
    step: PropValueView,
    tail: Seq<u8>,
)
    requires
        value_of_type(dflt, t),
        value_of_type(min, t),
        value_of_type(max, t),
        value_of_type(step, t),
    ensures
        object_prop_desc_read(
            le_u(code as int, 2) + le_u(t as int, 2) + le_u(gs as int, 1) + prop_value_bytes(dflt) + le_u(group as int, 4)
                + le_u(1, 1) + prop_value_bytes(min) + prop_value_bytes(max) + prop_value_bytes(step) + tail,
        ) == Ok::<(ObjectPropDescView, Seq<u8>), ProtoErrorView>((
            ObjectPropDescView {
                object_property_code: code,
                data_type: DataType(t),
                get_set: gs,
                factory_default_value: dflt,
                group_code: group,
                form_flag: 1,
                form: PropFormView::Range { minimum: min, maximum: max, step },
            },
            tail,
        )),
{
    let p1 = le_u(code as int, 2);
    let p2 = le_u(t as int, 2);
    let p3 = le_u(gs as int, 1);
    let p4 = prop_value_bytes(dflt);
    let p5 = le_u(group as int, 4);
    let p6 = le_u(1, 1);
    let p7 = prop_value_bytes(min);
    let p8 = prop_value_bytes(max);
    let p9 = prop_value_bytes(step);
    let r9 = p9 + tail;
    let r8 = p8 + r9;
    let r7 = p7 + r8;
    let r6 = p6 + r7;
    let r5 = p5 + r6;
    let r4 = p4 + r5;
    let r3 = p3 + r4;
    let r2 = p2 + r3;
    let r1 = p1 + r2;
    let l2 = p1 + p2;
    let l3 = l2 + p3;
    let l4 = l3 + p4;
    let l5 = l4 + p5;
    let l6 = l5 + p6;
    let l7 = l6 + p7;
    let l8 = l7 + p8;
    let l9 = l8 + p9;
    vstd::seq_lib::lemma_concat_associative(l8, p9, tail);
    vstd::seq_lib::lemma_concat_associative(l7, p8, r9);
    vstd::seq_lib::lemma_concat_associative(l6, p7, r8);
    vstd::seq_lib::lemma_concat_associative(l5, p6, r7);
    vstd::seq_lib::lemma_concat_associative(l4, p5, r6);
    vstd::seq_lib::lemma_concat_associative(l3, p4, r5);
    vstd::seq_lib::lemma_concat_associative(l2, p3, r4);
    vstd::seq_lib::lemma_concat_associative(p1, p2, r3);
    assert(l9 + tail == r1);
    lemma_rd_u16_of(code, r2);
    lemma_rd_u16_of(t, r3);
    lemma_rd_u8_of(gs, r4);
    lemma_prop_value_roundtrip(dflt, r5);
    lemma_rd_u32_of(group, r6);
    lemma_rd_u8_of(1, r7);
    lemma_prop_value_roundtrip(min, r8);
    lemma_prop_value_roundtrip(max, r9);
    lemma_prop_value_roundtrip(step, tail);
}

/// A device property description with no form, laid out on the wire as
/// property code and data type (16 bits), get/set (8 bits), the factory
/// default and current values of the described type, then form flag 0,
/// reads back field by field, leaving what follows.
#[verifier::spinoff_prover]
#[verifier::rlimit(40)]
pub proof fn lemma_device_prop_desc_layout(
    code: u16,
    t: u16,
    gs: u8,
    dflt: PropValueView,
    cur: PropValueView,
    tail: Seq<u8>,
)
    requires
        value_of_type(dflt, t),
        value_of_type(cur, t),
    ensures
        device_prop_desc_read(
            le_u(code as int, 2) + le_u(t as int, 2) + le_u(gs as int, 1) + prop_value_bytes(dflt) + prop_value_bytes(
                cur,
            ) + le_u(0, 1) + tail,
        ) == Ok::<(DevicePropDescView, Seq<u8>), ProtoErrorView>((
            DevicePropDescView {
                device_property_code: code,
                data_type: DataType(t),
                get_set: gs,
                factory_default_value: dflt,
                current_value: cur,
                form_flag: 0,
                form: PropFormView::NoForm,
            },
            tail,
        )),
{
    let p1 = le_u(code as int, 2);
    let p2 = le_u(t as int, 2);
    let p3 = le_u(gs as int, 1);
    let p4 = prop_value_bytes(dflt);
    let p5 = prop_value_bytes(cur);
    let p6 = le_u(0, 1);
    let r6 = p6 + tail;
    let r5 = p5 + r6;
    let r4 = p4 + r5;
    let r3 = p3 + r4;
    let r2 = p2 + r3;
    let r1 = p1 + r2;
    let l2 = p1 + p2;
    let l3 = l2 + p3;
    let l4 = l3 + p4;
    let l5 = l4 + p5;
    let l6 = l5 + p6;
    vstd::seq_lib::lemma_concat_associative(l5, p6, tail);
    vstd::seq_lib::lemma_concat_associative(l4, p5, r6);
    vstd::seq_lib::lemma_concat_associative(l3, p4, r5);
    vstd::seq_lib::lemma_concat_associative(l2, p3, r4);
    vstd::seq_lib::lemma_concat_associative(p1, p2, r3);
    assert(l6 + tail == r1);
    lemma_rd_u16_of(code, r2);
    lemma_rd_u16_of(t, r3);
    lemma_rd_u8_of(gs, r4);
    lemma_prop_value_roundtrip(dflt, r5);
    lemma_prop_value_roundtrip(cur, r6);
    lemma_rd_u8_of(0, tail);
}

} // verus!
