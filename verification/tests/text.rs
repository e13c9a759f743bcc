use fluxel_gl::float;
use fluxel_gl::text::{
    chars_of, has_prefix, has_word, is_blank, lead_end, parse_byte, push_decimal,
    push_hexadecimal, trim, CharClass, TextSet,
};

#[test]
fn blank_texts_trim_to_nothing_at_all() {
    assert!(is_blank(" \t\u{3000}\n"));
    assert_eq!(trim(" \u{a0}two words\n"), "two words");
    assert_eq!(trim("   "), "");
    for text in ["", " a ", "\u{2003}b", "c\u{85}", "\u{200b}d"] {
        assert_eq!(trim(text), text.trim());
    }
}

#[test]
fn numbers_are_written_in_full() {
    for number in [0u64, 7, 10, 4096, u64::MAX] {
        let mut line = "n=".to_owned();
        push_decimal(&mut line, number);
        assert_eq!(line, format!("n={number}"));
    }
    let mut line = String::new();
    push_hexadecimal(&mut line, 0x505, 8);
    assert_eq!(line, format!("{:08x}", 0x505));
    let mut line = String::new();
    push_hexadecimal(&mut line, 0xABCDE, 4);
    assert_eq!(line, format!("{:04x}", 0xABCDE));
}

#[test]
fn bytes_are_read_as_they_are_written() {
    for byte in 0..=255u8 {
        let chars = chars_of(&byte.to_string());
        assert_eq!(parse_byte(&chars, 0, chars.len()), Some(byte));
    }
    for text in ["", "256", "-1", "1x", "999999999999999999999"] {
        let chars = chars_of(text);
        assert_eq!(parse_byte(&chars, 0, chars.len()), None, "{text}");
    }
    let chars = chars_of("0042");
    assert_eq!(parse_byte(&chars, 0, 4), "0042".parse().ok());
}

#[test]
fn prefixes_and_words_are_whole() {
    assert!(has_prefix(&chars_of("OpenGL ES 3.2"), "OpenGL ES "));
    assert!(!has_prefix(&chars_of("OpenGL"), "OpenGL ES "));
    assert!(has_word("EGL_A EGL_B\tEGL_C", "EGL_B"));
    assert!(!has_word("EGL_AB EGL_BC", "EGL_B"));
    assert!(!has_word("", "EGL_B"));
}

#[test]
fn a_set_of_texts_is_listed_in_order() {
    let mut set = TextSet::new();
    assert!(set.is_empty());
    for text in ["pear", "apple", "pear", "Apple", "app"] {
        set.insert(text.to_owned());
    }
    assert_eq!(set.sorted(), vec!["Apple", "app", "apple", "pear"]);
    assert!(set.contains("app"));
    assert!(!set.contains("ap"));
    let mut more = TextSet::new();
    more.insert("fig".to_owned());
    set.extend(more);
    assert!(set.contains("fig"));
}

#[test]
fn float_bits_mean_what_they_mean() {
    for value in [
        0.0f32,
        -0.0,
        0.5,
        1.0,
        -1.0,
        1.999,
        2.5,
        1023.75,
        4294967040.0,
        4294967296.0,
        1e30,
        -3.7,
        f32::INFINITY,
        f32::NEG_INFINITY,
        f32::NAN,
        f32::MIN_POSITIVE,
        1e-40,
    ] {
        let bits = value.to_bits();
        assert_eq!(float::is_zero(bits), value == 0.0, "{value}");
        assert_eq!(float::is_finite(bits), value.is_finite(), "{value}");
        assert_eq!(float::is_negative(bits), value < 0.0, "{value}");
        if value.is_finite() && value >= 0.0 {
            assert_eq!(float::to_u32(bits), value as u32, "{value}");
        }
    }
    for value in [1u16, 2, 3, 16, 1000, 32767, 32768, 65535] {
        assert_eq!(float::from_u16(value), f32::from(value).to_bits(), "{value}");
    }
}

#[test]
fn a_lead_goes_as_far_as_it_can() {
    let chars = chars_of("4.6.0 Vendor");
    assert_eq!(lead_end(&chars, 0, chars.len(), CharClass::Version), 5);
    assert_eq!(lead_end(&chars, 5, chars.len(), CharClass::Space), 6);
    assert_eq!(lead_end(&chars, 6, 8, CharClass::Word), 8);
    assert_eq!(lead_end(&chars, 0, chars.len(), CharClass::Space), 0);
}
