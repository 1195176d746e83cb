use rawmode::diagnostic::{
    decode, format_binary, format_decimal, format_line, format_quoted, is_control,
};

#[test]
fn line_for_capital_a() {
    assert_eq!(format_line(65), "Binary: 01000001 ASCII: 65 Character: 'A'");
}

#[test]
fn line_for_quit_key() {
    assert_eq!(format_line(b'q'), "Binary: 01110001 ASCII: 113 Character: 'q'");
}

#[test]
fn line_for_control_bytes_has_no_character_field() {
    for b in (0u8..=31).chain([127u8]) {
        let line = format_line(b);
        assert!(!line.contains("Character:"), "byte {}", b);
        assert_eq!(line, format!("Binary: {:08b} ASCII: {}", b, b));
    }
    assert_eq!(format_line(0), "Binary: 00000000 ASCII: 0");
    assert_eq!(format_line(13), "Binary: 00001101 ASCII: 13");
    assert_eq!(format_line(27), "Binary: 00011011 ASCII: 27");
    assert_eq!(format_line(127), "Binary: 01111111 ASCII: 127");
}

#[test]
fn line_for_printable_bytes_shows_the_character() {
    for b in 32u8..=126 {
        let line = format_line(b);
        let c = b as char;
        let field = if c == '\'' || c == '\\' {
            format!(" Character: '\\{}'", c)
        } else {
            format!(" Character: '{}'", c)
        };
        assert!(line.ends_with(&field), "byte {}", b);
        assert_eq!(line, format!("Binary: {:08b} ASCII: {}{}", b, b, field));
    }
    assert_eq!(format_line(32), "Binary: 00100000 ASCII: 32 Character: ' '");
    assert_eq!(format_line(39), "Binary: 00100111 ASCII: 39 Character: '\\''");
    assert_eq!(format_line(92), "Binary: 01011100 ASCII: 92 Character: '\\\\'");
    assert_eq!(format_line(126), "Binary: 01111110 ASCII: 126 Character: '~'");
}

#[test]
fn line_for_high_bytes() {
    for b in 128u8..=159 {
        assert_eq!(format_line(b), format!("Binary: {:08b} ASCII: {}", b, b));
    }
    assert_eq!(format_line(128), "Binary: 10000000 ASCII: 128");
    assert_eq!(format_line(233), "Binary: 11101001 ASCII: 233 Character: 'é'");
    assert_eq!(format_line(255), "Binary: 11111111 ASCII: 255 Character: 'ÿ'");
    assert_eq!(format_line(160), "Binary: 10100000 ASCII: 160 Character: '\\u{a0}'");
    assert_eq!(format_line(173), "Binary: 10101101 ASCII: 173 Character: '\\u{ad}'");
}

#[test]
fn line_agrees_with_std_formatting_on_every_byte() {
    for b in 0u8..=255 {
        let c = b as char;
        let expected = if c.is_control() {
            format!("Binary: {:08b} ASCII: {}", b, b)
        } else {
            format!("Binary: {:08b} ASCII: {} Character: {:?}", b, b, c)
        };
        assert_eq!(format_line(b), expected, "byte {}", b);
    }
}

#[test]
fn binary_field_is_eight_binary_digits() {
    for b in 0u8..=255 {
        let field = format_binary(b);
        assert_eq!(field.len(), 8);
        assert!(field.chars().all(|c| c == '0' || c == '1'));
        assert_eq!(u8::from_str_radix(&field, 2), Ok(b));
        assert_eq!(field, format!("{:08b}", b));
    }
    assert_eq!(format_binary(0), "00000000");
    assert_eq!(format_binary(1), "00000001");
    assert_eq!(format_binary(65), "01000001");
    assert_eq!(format_binary(128), "10000000");
    assert_eq!(format_binary(255), "11111111");
}

#[test]
fn decimal_field_has_no_padding() {
    for b in 0u8..=255 {
        assert_eq!(format_decimal(b), b.to_string());
    }
    assert_eq!(format_decimal(0), "0");
    assert_eq!(format_decimal(9), "9");
    assert_eq!(format_decimal(10), "10");
    assert_eq!(format_decimal(65), "65");
    assert_eq!(format_decimal(99), "99");
    assert_eq!(format_decimal(100), "100");
    assert_eq!(format_decimal(255), "255");
}

#[test]
fn quoted_character_agrees_with_std_debug_on_every_byte() {
    for b in 0u8..=255 {
        assert_eq!(format_quoted(b), format!("{:?}", b as char), "byte {}", b);
    }
    assert_eq!(format_quoted(b'A'), "'A'");
    assert_eq!(format_quoted(b'\''), "'\\''");
    assert_eq!(format_quoted(b'"'), "'\"'");
    assert_eq!(format_quoted(b'\\'), "'\\\\'");
    assert_eq!(format_quoted(0), "'\\0'");
    assert_eq!(format_quoted(9), "'\\t'");
    assert_eq!(format_quoted(10), "'\\n'");
    assert_eq!(format_quoted(13), "'\\r'");
    assert_eq!(format_quoted(1), "'\\u{1}'");
    assert_eq!(format_quoted(27), "'\\u{1b}'");
    assert_eq!(format_quoted(127), "'\\u{7f}'");
    assert_eq!(format_quoted(159), "'\\u{9f}'");
}

#[test]
fn control_bytes_are_those_of_std() {
    for b in 0u8..=255 {
        assert_eq!(is_control(b), (b as char).is_control(), "byte {}", b);
    }
    assert!(is_control(0));
    assert!(is_control(31));
    assert!(!is_control(32));
    assert!(!is_control(126));
    assert!(is_control(127));
    assert!(is_control(159));
    assert!(!is_control(160));
    assert!(!is_control(255));
}

#[test]
fn decode_maps_a_byte_to_the_code_point_of_its_number() {
    for b in 0u8..=255 {
        assert_eq!(decode(b), b as char);
        assert_eq!(decode(b) as u32, b as u32);
    }
    assert_eq!(decode(113), 'q');
    assert_eq!(decode(233), 'é');
}
