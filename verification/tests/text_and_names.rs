use vaenc_caps::fourcc::{fourcc, DecodeError};
use std::borrow::Cow;
use vaenc_caps::names::{
    enum_str, push_name, VACONFIGATTRIB_STR, VAENTRYPOINT_STR, VAPROFILE_STR, VASURFACEATTRIB_STR,
};
use vaenc_caps::session::{negotiate_version, InitializationFailure, Version};
use vaenc_caps::text::{decimal_string, push_binary, push_decimal, push_integer};

#[test]
fn decimal_of_zero_is_one_digit() {
    assert_eq!(decimal_string(0), "0");
}

#[test]
fn decimal_of_single_and_many_digits() {
    assert_eq!(decimal_string(7), "7");
    assert_eq!(decimal_string(10), "10");
    assert_eq!(decimal_string(4096), "4096");
    assert_eq!(decimal_string(2147483648), "2147483648");
}

#[test]
fn decimal_of_negative_values() {
    assert_eq!(decimal_string(-1), "-1");
    assert_eq!(decimal_string(-120), "-120");
}

#[test]
fn decimal_of_the_extremes() {
    assert_eq!(decimal_string(i64::MAX), "9223372036854775807");
    assert_eq!(decimal_string(i64::MIN), "-9223372036854775808");
}

#[test]
fn decimal_agrees_with_the_standard_rendering() {
    for v in [-1000i64, -999, -10, -9, -1, 0, 1, 9, 10, 11, 99, 100, 101, 65535, 65536] {
        assert_eq!(decimal_string(v), format!("{}", v));
    }
}

#[test]
fn push_decimal_appends_to_what_is_there() {
    let mut s = String::from("x=");
    push_decimal(&mut s, 305);
    assert_eq!(s, "x=305");
    push_decimal(&mut s, u64::MAX);
    assert_eq!(s, "x=30518446744073709551615");
}

#[test]
fn push_integer_appends_the_sign() {
    let mut s = String::from("[");
    push_integer(&mut s, -42);
    s.push(']');
    assert_eq!(s, "[-42]");
}

#[test]
fn binary_of_zero_and_one() {
    let mut s = String::new();
    push_binary(&mut s, 0);
    assert_eq!(s, "0");
    let mut s = String::new();
    push_binary(&mut s, 1);
    assert_eq!(s, "1");
}

#[test]
fn binary_has_no_leading_zero() {
    let mut s = String::from("0b");
    push_binary(&mut s, 5);
    assert_eq!(s, "0b101");
    let mut s = String::new();
    push_binary(&mut s, 0x8000_0000);
    assert_eq!(s, "10000000000000000000000000000000");
}

#[test]
fn binary_agrees_with_the_standard_rendering() {
    for v in [0u64, 1, 2, 3, 4, 7, 8, 255, 256, 0xdead_beef, u64::MAX] {
        let mut s = String::new();
        push_binary(&mut s, v);
        assert_eq!(s, format!("{:b}", v));
    }
}

#[test]
fn fourcc_decodes_nv12() {
    let code = u32::from_le_bytes([0x4E, 0x56, 0x31, 0x32]);
    assert_eq!(code, 0x3231564E);
    assert_eq!(fourcc(code), Ok(String::from("NV12")));
}

#[test]
fn fourcc_takes_the_lowest_byte_first() {
    assert_eq!(fourcc(0x4142_4344), Ok(String::from("DCBA")));
    assert_eq!(fourcc(0x3231_5559), Ok(String::from("YU12")));
}

#[test]
fn fourcc_keeps_all_ascii_bytes() {
    assert_eq!(fourcc(0), Ok(String::from("\0\0\0\0")));
    assert_eq!(fourcc(0x7f7f_7f7f), Ok(String::from("\u{7f}\u{7f}\u{7f}\u{7f}")));
    assert_eq!(fourcc(0x2020_2020), Ok(String::from("    ")));
}

#[test]
fn fourcc_refuses_a_byte_that_is_not_ascii_in_each_position() {
    for code in [0x3231_5680u32, 0x3231_804E, 0x3280_564E, 0x8031_564E, 0xFFFF_FFFF, 0x3231_56FF] {
        assert_eq!(fourcc(code), Err(DecodeError { code }));
    }
}

#[test]
fn fourcc_refuses_a_two_byte_character() {
    let code = u32::from_le_bytes([0xC3, 0xA9, 0x41, 0x42]);
    assert_eq!(fourcc(code), Err(DecodeError { code }));
}

#[test]
fn decode_error_has_a_marker() {
    let e = DecodeError { code: 0xFFFF_FFFF };
    assert_eq!(e.marker(), "DecodeError");
}

#[test]
fn enum_str_finds_a_known_code() {
    let table = VAENTRYPOINT_STR;
    assert_eq!(enum_str(&table, 6), "VAEntrypointEncSlice");
    assert_eq!(enum_str(&table, 8), "VAEntrypointEncSliceLP");
    assert_eq!(enum_str(&table, 1), "VAEntrypointVLD");
    assert_eq!(enum_str(&table, 12), "VAEntrypointStats");
}

#[test]
fn enum_str_falls_back_to_the_decimal_text() {
    let table = VAENTRYPOINT_STR;
    assert_eq!(enum_str(&table, 9), "9");
    assert_eq!(enum_str(&table, 0), "0");
    assert_eq!(enum_str(&table, 13), "13");
    assert_eq!(enum_str(&table, 4_000_000_000), "4000000000");
    assert_eq!(enum_str(&table, -3), "-3");
}

#[test]
fn enum_str_on_an_empty_table() {
    let table: Vec<(i64, &'static str)> = Vec::new();
    assert_eq!(enum_str(&table, 17), "17");
}

#[test]
fn enum_str_takes_the_first_of_two_entries() {
    let table: Vec<(i64, &'static str)> = vec![(1, "one"), (2, "two"), (1, "uno")];
    assert_eq!(enum_str(&table, 1), "one");
    assert_eq!(enum_str(&table, 2), "two");
    assert_eq!(enum_str(&table, 3), "3");
}

#[test]
fn profile_table_names_the_profiles() {
    let table = VAPROFILE_STR;
    assert_eq!(table.len(), 33);
    assert_eq!(enum_str(&table, -1), "VAProfileNone");
    assert_eq!(enum_str(&table, 0), "VAProfileMPEG2Simple");
    assert_eq!(enum_str(&table, 7), "VAProfileH264High");
    assert_eq!(enum_str(&table, 13), "VAProfileH264ConstrainedBaseline");
    assert_eq!(enum_str(&table, 17), "VAProfileHEVCMain");
    assert_eq!(enum_str(&table, 31), "VAProfileHEVCSccMain444");
    assert_eq!(enum_str(&table, 32), "32");
    assert_eq!(enum_str(&table, -2), "-2");
}

#[test]
fn entry_point_table_has_no_code_nine() {
    let table = VAENTRYPOINT_STR;
    assert_eq!(table.len(), 11);
    assert!(table.iter().all(|e| e.0 != 9));
    assert_eq!(table[0], (1, "VAEntrypointVLD"));
    assert_eq!(table[10], (12, "VAEntrypointStats"));
}

#[test]
fn config_attrib_table_names_the_probed_kinds() {
    let table = VACONFIGATTRIB_STR;
    assert_eq!(table.len(), 37);
    assert_eq!(enum_str(&table, 13), "VAConfigAttribEncMaxRefFrames");
    assert_eq!(enum_str(&table, 18), "VAConfigAttribMaxPictureWidth");
    assert_eq!(enum_str(&table, 19), "VAConfigAttribMaxPictureHeight");
    assert_eq!(enum_str(&table, 21), "VAConfigAttribEncQualityRange");
    assert_eq!(enum_str(&table, 10), "VAConfigAttribEncPackedHeaders");
    assert_eq!(enum_str(&table, 22), "VAConfigAttribEncQuantization");
    assert_eq!(enum_str(&table, 16), "VAConfigAttribEncMacroblockInfo");
    assert_eq!(enum_str(&table, 0), "VAConfigAttribRTFormat");
    assert_eq!(enum_str(&table, 9), "9");
    assert_eq!(enum_str(&table, 12), "12");
    assert_eq!(enum_str(&table, 17), "17");
    assert_eq!(enum_str(&table, 40), "40");
}

#[test]
fn surface_attrib_table_leaves_the_unused_kind_out() {
    let table = VASURFACEATTRIB_STR;
    assert_eq!(table.len(), 9);
    assert_eq!(enum_str(&table, 1), "VASurfaceAttribPixelFormat");
    assert_eq!(enum_str(&table, 6), "VASurfaceAttribMemoryType");
    assert_eq!(enum_str(&table, 9), "VASurfaceAttribCount");
    assert_eq!(enum_str(&table, 0), "0");
}

#[test]
fn enum_str_borrows_a_name_and_owns_a_number() {
    let table = VAENTRYPOINT_STR;
    assert!(matches!(enum_str(&table, 6), Cow::Borrowed("VAEntrypointEncSlice")));
    assert!(matches!(enum_str(&table, 9), Cow::Owned(_)));
}

#[test]
fn push_name_appends_the_name_or_the_number() {
    let table = VASURFACEATTRIB_STR;
    let mut s = String::from("<");
    push_name(&mut s, &table, 2);
    s.push('|');
    push_name(&mut s, &table, 0);
    s.push('|');
    push_name(&mut s, &table, -7);
    s.push('>');
    assert_eq!(s, "<VASurfaceAttribMinWidth|0|-7>");
}

#[test]
fn version_comes_with_success_only() {
    assert_eq!(negotiate_version(0, 1, 4), Ok(Version { major: 1, minor: 4 }));
    assert_eq!(negotiate_version(1, 1, 4), Err(InitializationFailure { status: 1 }));
    assert_eq!(negotiate_version(-1, 0, 0), Err(InitializationFailure { status: -1 }));
}
