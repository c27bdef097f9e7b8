use keel::codec::{
    civil_from_days, days_from_civil, decode_datetime, decode_string, encode_datetime,
    encode_string, read_i32, read_u128, read_u16, read_u16_array, read_u32, read_u32_array,
    read_u64, read_u8, write_i32, write_u128, write_u16, write_u16_array, write_u32,
    write_count, write_u32_array, write_u64, write_u8,
};
use keel::error::ProtoError;

#[test]
fn int_roundtrips() {
    let mut out = Vec::new();
    write_u8(0xAB, &mut out);
    write_u16(0xBEEF, &mut out);
    write_u32(0xDEAD_BEEF, &mut out);
    write_u64(0x0123_4567_89AB_CDEF, &mut out);
    write_i32(-2, &mut out);
    write_u128(0x1122_3344_5566_7788_99AA_BBCC_DDEE_FF00, &mut out);

    let mut b = &out[..];
    assert_eq!(read_u8(&mut b).unwrap(), 0xAB);
    assert_eq!(read_u16(&mut b).unwrap(), 0xBEEF);
    assert_eq!(read_u32(&mut b).unwrap(), 0xDEAD_BEEF);
    assert_eq!(read_u64(&mut b).unwrap(), 0x0123_4567_89AB_CDEF);
    assert_eq!(read_i32(&mut b).unwrap(), -2);
    assert_eq!(read_u128(&mut b).unwrap(), 0x1122_3344_5566_7788_99AA_BBCC_DDEE_FF00);
    assert!(b.is_empty());
}

#[test]
fn int_read_truncated_errors_not_panics() {
    let buf = [0x01u8, 0x02, 0x03];
    let mut b = &buf[..];
    assert_eq!(read_u32(&mut b), Err(ProtoError::Truncated { need: 4, have: 3 }));
    assert_eq!(b.len(), 3);
    let mut empty: &[u8] = &[];
    assert_eq!(read_u8(&mut empty), Err(ProtoError::Truncated { need: 1, have: 0 }));
}

#[test]
fn u16_array_roundtrip() {
    let v = vec![0x1001u16, 0x1002, 0x9803];
    let mut out = Vec::new();
    write_u16_array(&v, &mut out);
    assert_eq!(&out[0..4], &3u32.to_le_bytes());
    let mut b = &out[..];
    assert_eq!(read_u16_array(&mut b).unwrap(), v);
    assert!(b.is_empty());
}

#[test]
fn u32_array_roundtrip() {
    let v = vec![0xFFFF_FFFFu32, 0, 42];
    let mut out = Vec::new();
    write_u32_array(&v, &mut out);
    let mut b = &out[..];
    assert_eq!(read_u32_array(&mut b).unwrap(), v);
}

#[test]
fn array_count_beyond_buffer_errors_not_allocates() {
    let mut out = Vec::new();
    write_u32(1_000_000, &mut out);
    out.extend_from_slice(&[0u8; 4]);
    let mut b = &out[..];
    match read_u16_array(&mut b) {
        Err(ProtoError::Truncated { need, have }) => {
            assert_eq!(need, 2_000_000);
            assert_eq!(have, 4);
        }
        other => panic!("expected Truncated, got {other:?}"),
    }
}

#[test]
fn encode_str_empty() {
    let mut out = Vec::new();
    encode_string("", &mut out);
    assert_eq!(out, vec![0x00]);
}

#[test]
fn encode_str_a_umlaut() {
    let mut out = Vec::new();
    encode_string("ä", &mut out);
    assert_eq!(out, vec![0x02, 0xE4, 0x00, 0x00, 0x00]);
}

#[test]
fn decode_str_o_umlaut_roundtrip() {
    let mut out = Vec::new();
    encode_string("ö", &mut out);
    let mut b = &out[..];
    assert_eq!(decode_string(&mut b).unwrap(), "ö");
    assert!(b.is_empty());
}

#[test]
fn decode_empty_string_byte() {
    let buf = [0x00u8];
    let mut b = &buf[..];
    assert_eq!(decode_string(&mut b).unwrap(), "");
    assert!(b.is_empty());
}

#[test]
fn emoji_surrogate_pair_roundtrip() {
    let mut out = Vec::new();
    encode_string("😀", &mut out);
    assert_eq!(out, vec![0x03, 0x3D, 0xD8, 0x00, 0xDE, 0x00, 0x00]);
    let mut b = &out[..];
    assert_eq!(decode_string(&mut b).unwrap(), "😀");
}

#[test]
fn mixed_bmp_and_astral_roundtrip() {
    for s in ["a😀b", "日本語", "café", "🇺🇸flag", "𝕳ello"] {
        let mut out = Vec::new();
        encode_string(s, &mut out);
        let mut b = &out[..];
        assert_eq!(decode_string(&mut b).unwrap(), s);
    }
}

#[test]
fn max_length_edge() {
    let s: String = "a".repeat(253);
    let mut out = Vec::new();
    encode_string(&s, &mut out);
    assert_eq!(out[0], 254);
    let mut b = &out[..];
    assert_eq!(decode_string(&mut b).unwrap(), s);

    let long: String = "a".repeat(300);
    let mut out2 = Vec::new();
    encode_string(&long, &mut out2);
    assert_eq!(out2[0], 254);
    let mut b2 = &out2[..];
    assert_eq!(decode_string(&mut b2).unwrap(), "a".repeat(253));
}

#[test]
fn cap_never_splits_surrogate_pair() {
    let mut s = "a".repeat(252);
    s.push('😀');
    let mut out = Vec::new();
    encode_string(&s, &mut out);
    let mut b = &out[..];
    let decoded = decode_string(&mut b).unwrap();
    assert!(!decoded.contains('\u{FFFD}'));
    assert_eq!(decoded, "a".repeat(252));
}

#[test]
fn decode_str_truncated_errors_not_panics() {
    let buf = [0x05u8, 0x41, 0x00, 0x42, 0x00];
    let mut b = &buf[..];
    match decode_string(&mut b) {
        Err(ProtoError::Truncated { need: 10, have: 4 }) => {}
        other => panic!("expected Truncated, got {other:?}"),
    }
}

#[test]
fn decode_str_empty_buffer_errors() {
    let mut b: &[u8] = &[];
    assert!(matches!(decode_string(&mut b), Err(ProtoError::Truncated { need: 1, have: 0 })));
}

#[test]
fn decode_str_lone_surrogate_becomes_replacement() {
    let buf = [0x02u8, 0x00, 0xD8, 0x00, 0x00];
    let mut b = &buf[..];
    assert_eq!(decode_string(&mut b).unwrap(), "\u{FFFD}");
}

#[test]
fn datetime_samsung_dot_roundtrip() {
    let t = decode_datetime("20120101T010022.").unwrap();
    let mut out = Vec::new();
    encode_datetime(t, &mut out);
    let mut b = &out[..];
    assert_eq!(decode_string(&mut b).unwrap(), "20120101T010022");
}

#[test]
fn datetime_jolla_z_suffix() {
    let t = decode_datetime("20120101T010022Z").unwrap();
    let mut out = Vec::new();
    encode_datetime(t, &mut out);
    let mut b = &out[..];
    assert_eq!(decode_string(&mut b).unwrap(), "20120101T010022");
}

#[test]
fn datetime_nokia_numeric_tz() {
    let with_tz = decode_datetime("20120101T120000+0100").unwrap();
    let utc = decode_datetime("20120101T110000").unwrap();
    assert_eq!(with_tz, utc);
    let neg = decode_datetime("20120101T120000-0230").unwrap();
    let utc2 = decode_datetime("20120101T143000").unwrap();
    assert_eq!(neg, utc2);
}

#[test]
fn datetime_empty_is_epoch() {
    // Instants are seconds since the Unix epoch.
    assert_eq!(decode_datetime("").unwrap(), 0);
}

#[test]
fn datetime_trims_to_empty_is_error_like_go() {
    assert!(matches!(decode_datetime("Z"), Err(ProtoError::BadDate(_))));
    assert!(matches!(decode_datetime("."), Err(ProtoError::BadDate(_))));
}

#[test]
fn datetime_garbage_errors_not_panics() {
    for s in ["garbage", "2012", "20120101X010022", "20120145T010022", "99999999T999999"] {
        assert!(matches!(decode_datetime(s), Err(ProtoError::BadDate(_))), "expected BadDate for {s:?}");
    }
}

#[test]
fn datetime_encode_zero_time() {
    // One second before the epoch.
    let mut out = Vec::new();
    encode_datetime(-1, &mut out);
    assert_eq!(out, vec![0x00]);
}

#[test]
fn civil_algorithms_are_inverse() {
    assert_eq!(days_from_civil(1970, 1, 1), 0);
    assert_eq!(civil_from_days(0), (1970, 1, 1));
    for &(y, m, d) in &[(1970, 1, 1), (2000, 2, 29), (2012, 1, 1), (2024, 12, 31), (1999, 6, 15)] {
        let days = days_from_civil(y, m, d);
        assert_eq!(civil_from_days(days), (y, m, d), "roundtrip {y}-{m}-{d}");
    }
}

#[test]
fn datetime_full_wire_roundtrip() {
    let mut wire = Vec::new();
    encode_string("20240229T235959", &mut wire);
    let mut b = &wire[..];
    let s = decode_string(&mut b).unwrap();
    let t = decode_datetime(&s).unwrap();
    let mut out = Vec::new();
    encode_datetime(t, &mut out);
    let mut b2 = &out[..];
    assert_eq!(decode_string(&mut b2).unwrap(), "20240229T235959");
}

#[test]
fn array_count_keeps_low_32_bits() {
    let mut out = Vec::new();
    write_count(7, &mut out);
    assert_eq!(out, vec![7, 0, 0, 0]);
    if usize::BITS == 64 {
        let mut big = Vec::new();
        write_count((0x1_0000_0005u64) as usize, &mut big);
        assert_eq!(big, vec![5, 0, 0, 0]);
    }
}
