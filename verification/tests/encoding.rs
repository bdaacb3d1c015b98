use winptyrs::pty::encoding::{utf8_from_wide, wide_from_utf8};

fn wide(text: &str) -> Vec<u16> {
    text.encode_utf16().collect()
}

#[test]
fn ascii_is_one_byte_per_unit() {
    assert_eq!(utf8_from_wide(&wide("echo wait\r\n")), b"echo wait\r\n".to_vec());
    assert_eq!(wide_from_utf8(&b"echo wait\r\n".to_vec()), wide("echo wait\r\n"));
}

#[test]
fn empty_text_is_empty_bytes() {
    assert_eq!(utf8_from_wide(&Vec::new()), Vec::<u8>::new());
    assert_eq!(wide_from_utf8(&Vec::new()), Vec::<u16>::new());
}

#[test]
fn each_width_has_its_exact_bytes() {
    // U+0041, U+00E9, U+20AC, U+1F601
    assert_eq!(utf8_from_wide(&vec![0x0041]), vec![0x41]);
    assert_eq!(utf8_from_wide(&vec![0x00E9]), vec![0xC3, 0xA9]);
    assert_eq!(utf8_from_wide(&vec![0x20AC]), vec![0xE2, 0x82, 0xAC]);
    assert_eq!(utf8_from_wide(&vec![0xD83D, 0xDE01]), vec![0xF0, 0x9F, 0x98, 0x81]);
}

#[test]
fn each_width_decodes_to_its_exact_units() {
    assert_eq!(wide_from_utf8(&vec![0x41]), vec![0x0041]);
    assert_eq!(wide_from_utf8(&vec![0xC3, 0xA9]), vec![0x00E9]);
    assert_eq!(wide_from_utf8(&vec![0xE2, 0x82, 0xAC]), vec![0x20AC]);
    assert_eq!(wide_from_utf8(&vec![0xF0, 0x9F, 0x98, 0x81]), vec![0xD83D, 0xDE01]);
}

#[test]
fn boundaries_of_the_widths() {
    for scalar in [0x7Fu32, 0x80, 0x7FF, 0x800, 0xD7FF, 0xE000, 0xFFFF, 0x10000, 0x10FFFF] {
        let text: String = char::from_u32(scalar).unwrap().to_string();
        assert_eq!(utf8_from_wide(&wide(&text)), text.as_bytes().to_vec());
        assert_eq!(wide_from_utf8(&text.as_bytes().to_vec()), wide(&text));
    }
}

#[test]
fn agrees_with_the_standard_library_on_text() {
    let text = "echo \"This is a test string 😁\" — ünïcödé ✓ 日本語 𝄞";
    assert_eq!(utf8_from_wide(&wide(text)), text.as_bytes().to_vec());
    assert_eq!(wide_from_utf8(&text.as_bytes().to_vec()), wide(text));
    assert_eq!(String::from_utf16(&wide_from_utf8(&text.as_bytes().to_vec())).unwrap(), text);
}

#[test]
fn round_trip_reproduces_every_scalar() {
    let mut scalar = 0u32;
    while scalar <= 0x10FFFF {
        if let Some(c) = char::from_u32(scalar) {
            let mut units = [0u16; 2];
            let text = c.encode_utf16(&mut units).to_vec();
            let bytes = utf8_from_wide(&text);
            let mut expected = [0u8; 4];
            assert_eq!(bytes, c.encode_utf8(&mut expected).as_bytes().to_vec());
            assert_eq!(wide_from_utf8(&bytes), text);
        }
        scalar += 97;
    }
}

#[test]
fn round_trip_of_an_emoji_is_byte_for_byte() {
    let text = wide("This is a test string 😁");
    let bytes = utf8_from_wide(&text);
    assert_eq!(bytes.len(), 22 + 4);
    assert_eq!(wide_from_utf8(&bytes), text);
}

#[test]
fn lone_surrogates_become_the_replacement_character() {
    // a high surrogate at the end, a low surrogate alone, a high followed by a non-surrogate
    assert_eq!(utf8_from_wide(&vec![0x41, 0xD83D]), vec![0x41, 0xEF, 0xBF, 0xBD]);
    assert_eq!(utf8_from_wide(&vec![0xDE01, 0x41]), vec![0xEF, 0xBF, 0xBD, 0x41]);
    assert_eq!(utf8_from_wide(&vec![0xD83D, 0x41]), vec![0xEF, 0xBF, 0xBD, 0x41]);
    // two high surrogates and then a low one: the first is alone, the rest is a pair
    assert_eq!(
        utf8_from_wide(&vec![0xD83D, 0xD83D, 0xDE01]),
        vec![0xEF, 0xBF, 0xBD, 0xF0, 0x9F, 0x98, 0x81]
    );
    assert_eq!(
        utf8_from_wide(&vec![0xD83D]),
        String::from_utf16_lossy(&[0xD83D]).as_bytes().to_vec()
    );
}

#[test]
fn bytes_that_start_nothing_become_the_replacement_character() {
    // a continuation byte alone
    assert_eq!(wide_from_utf8(&vec![0x80]), vec![0xFFFD]);
    // bytes that never occur in UTF-8
    assert_eq!(wide_from_utf8(&vec![0xFF, 0x41]), vec![0xFFFD, 0x41]);
    assert_eq!(wide_from_utf8(&vec![0xF8, 0x41]), vec![0xFFFD, 0x41]);
    // a sequence cut short at the end of the buffer: one replacement for each byte
    assert_eq!(wide_from_utf8(&vec![0x41, 0xF0, 0x9F, 0x98]), vec![0x41, 0xFFFD, 0xFFFD, 0xFFFD]);
    assert_eq!(wide_from_utf8(&vec![0xE2, 0x82]), vec![0xFFFD, 0xFFFD]);
    assert_eq!(wide_from_utf8(&vec![0xC3]), vec![0xFFFD]);
}

#[test]
fn overlong_and_surrogate_encodings_are_not_accepted() {
    // overlong forms of U+002F and U+0000
    assert_eq!(wide_from_utf8(&vec![0xC0, 0xAF]), vec![0xFFFD, 0xFFFD]);
    assert_eq!(wide_from_utf8(&vec![0xE0, 0x80, 0xAF]), vec![0xFFFD, 0xFFFD, 0xFFFD]);
    assert_eq!(wide_from_utf8(&vec![0xF0, 0x80, 0x80, 0xAF]), vec![0xFFFD; 4]);
    // U+D800 encoded as three bytes
    assert_eq!(wide_from_utf8(&vec![0xED, 0xA0, 0x80]), vec![0xFFFD, 0xFFFD, 0xFFFD]);
    // beyond U+10FFFF
    assert_eq!(wide_from_utf8(&vec![0xF4, 0x90, 0x80, 0x80]), vec![0xFFFD; 4]);
    // the last scalar itself is fine
    assert_eq!(wide_from_utf8(&vec![0xF4, 0x8F, 0xBF, 0xBF]), vec![0xDBFF, 0xDFFF]);
}

#[test]
fn what_is_written_for_any_units_is_valid_utf8() {
    let units: Vec<u16> = vec![0xD800, 0x0041, 0xDFFF, 0xDBFF, 0xDC00, 0xFFFF, 0x0000, 0xD83D];
    let bytes = utf8_from_wide(&units);
    assert!(std::str::from_utf8(&bytes).is_ok());
    assert_eq!(bytes, String::from_utf16_lossy(&units).as_bytes().to_vec());
}

#[test]
fn embedded_zero_units_are_kept() {
    assert_eq!(utf8_from_wide(&vec![0x41, 0x00, 0x42]), vec![0x41, 0x00, 0x42]);
    assert_eq!(wide_from_utf8(&vec![0x41, 0x00, 0x42]), vec![0x41, 0x00, 0x42]);
}
