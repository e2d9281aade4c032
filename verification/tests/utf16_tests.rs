use right_click_manager::utf16::{
    decode_utf16_lossy, encode_utf16, reg_sz_data, reg_sz_text, units_text,
};

#[test]
fn encode_ascii_gives_one_unit_per_char() {
    assert_eq!(encode_utf16("abc"), vec![97u16, 98, 99]);
}

#[test]
fn encode_bmp_char_gives_its_value() {
    assert_eq!(encode_utf16("中"), vec![0x4E2Du16]);
}

#[test]
fn encode_supplementary_char_gives_surrogate_pair() {
    assert_eq!(encode_utf16("😀"), vec![0xD83Du16, 0xDE00]);
    assert_eq!(encode_utf16("\u{10FFFF}"), vec![0xDBFFu16, 0xDFFF]);
    assert_eq!(encode_utf16("\u{10000}"), vec![0xD800u16, 0xDC00]);
}

#[test]
fn encode_matches_std() {
    for s in ["", "Open with Code", "用记事本打开", "a😀b\u{FFFF}c\u{E000}"] {
        let std_units: Vec<u16> = s.encode_utf16().collect();
        assert_eq!(encode_utf16(s), std_units);
    }
}

#[test]
fn decode_pairs_and_plain_units() {
    assert_eq!(decode_utf16_lossy(&[0x61, 0xD83D, 0xDE00, 0x4E2D]), "a😀中");
}

#[test]
fn decode_replaces_unpaired_surrogates() {
    assert_eq!(decode_utf16_lossy(&[0xD800, 0x41]), "\u{FFFD}A");
    assert_eq!(decode_utf16_lossy(&[0xDC00]), "\u{FFFD}");
    assert_eq!(decode_utf16_lossy(&[0x41, 0xD800]), "A\u{FFFD}");
    assert_eq!(decode_utf16_lossy(&[0xD800, 0xD800, 0xDC00]), "\u{FFFD}\u{10000}");
}

#[test]
fn decode_matches_std_lossy() {
    let cases: Vec<Vec<u16>> = vec![
        vec![],
        vec![0xD800],
        vec![0xDBFF, 0xDFFF, 0x20, 0xDFFF, 0xD800, 0x41],
        "混合 text 😀".encode_utf16().collect(),
    ];
    for units in cases {
        assert_eq!(decode_utf16_lossy(&units), String::from_utf16_lossy(&units));
    }
}

#[test]
fn decode_of_encode_round_trips() {
    for s in ["", "notepad.exe \"%1\"", "桌面背景", "x😀y"] {
        assert_eq!(decode_utf16_lossy(&encode_utf16(s)), s);
    }
}

#[test]
fn reg_sz_data_appends_zero_unit() {
    assert_eq!(reg_sz_data("ab"), vec![97u16, 98, 0]);
    assert_eq!(reg_sz_data(""), vec![0u16]);
}

#[test]
fn reg_sz_text_takes_half_the_byte_count_and_keeps_the_nul() {
    let mut buf = vec![0u16; 1024];
    buf[0] = 'a' as u16;
    buf[1] = 'b' as u16;
    assert_eq!(reg_sz_text(&buf, 6), "ab\0");
    assert_eq!(reg_sz_text(&buf, 5), "ab");
    assert_eq!(reg_sz_text(&buf, 0), "");
}

#[test]
fn reading_back_stored_data_gives_text_and_nul() {
    let data = reg_sz_data("Open here");
    assert_eq!(reg_sz_text(&data, (data.len() * 2) as u32), "Open here\0");
}

#[test]
fn units_text_takes_the_given_count() {
    let buf: Vec<u16> = "shellkey".encode_utf16().collect();
    assert_eq!(units_text(&buf, 5), "shell");
}
