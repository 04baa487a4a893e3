use autogen_rust::convert::IntErrorKind;
use autogen_rust::convert::parse_boolean;
use autogen_rust::convert::parse_integer;
use autogen_rust::convert::parse_unit;
use autogen_rust::text::char_is_whitespace;
use autogen_rust::text::chars_of;
use autogen_rust::text::contains_chars;
use autogen_rust::text::debug_option;
use autogen_rust::text::decimal_string;
use autogen_rust::text::ends_with;
use autogen_rust::text::lowercase_contains;
use autogen_rust::text::starts_with;
use autogen_rust::text::str_equal;
use autogen_rust::text::trim;
use autogen_rust::use_tool::TypeConverter;
use autogen_rust::use_tool::conversion_error;

const SAMPLES: [&str; 32] = [
    "", "+", "-", "0", "-0", "+0", "7", "+7", "-7", "127", "128", "-128", "-129", "255", "256",
    "00012", "1 ", " 1", "1_0", "12a", "a12", "--1", "+-1", "32767", "32768", "-32768", "-32769",
    "2147483647", "2147483648", "-2147483648", "-2147483649", "٣",
];

const LONG_SAMPLES: [&str; 12] = [
    "9223372036854775807",
    "9223372036854775808",
    "-9223372036854775808",
    "-9223372036854775809",
    "18446744073709551615",
    "18446744073709551616",
    "4294967295",
    "4294967296",
    "99999999999999999999999999999999999999999",
    "-99999999999999999999999999999999999999999",
    "99999999999999999999999999999999999999999x",
    "x99999999999999999999999999999999999999999",
];

#[test]
fn integers_are_read_as_std_reads_them() {
    for s in SAMPLES.iter().chain(LONG_SAMPLES.iter()) {
        assert_eq!(
            <i8 as TypeConverter>::convert_from_str(s),
            s.parse::<i8>().map_err(|e| format!("Conversion error for i8: {:?}", e)),
            "i8 {:?}", s
        );
        assert_eq!(
            <i16 as TypeConverter>::convert_from_str(s),
            s.parse::<i16>().map_err(|e| format!("Conversion error for i16: {:?}", e)),
            "i16 {:?}", s
        );
        assert_eq!(
            <i32 as TypeConverter>::convert_from_str(s),
            s.parse::<i32>().map_err(|e| format!("Conversion error for i32: {:?}", e)),
            "i32 {:?}", s
        );
        assert_eq!(
            <i64 as TypeConverter>::convert_from_str(s),
            s.parse::<i64>().map_err(|e| format!("Conversion error for i64: {:?}", e)),
            "i64 {:?}", s
        );
        assert_eq!(
            <isize as TypeConverter>::convert_from_str(s),
            s.parse::<isize>().map_err(|e| format!("Conversion error for isize: {:?}", e)),
            "isize {:?}", s
        );
        assert_eq!(
            <u8 as TypeConverter>::convert_from_str(s),
            s.parse::<u8>().map_err(|e| format!("Conversion error for u8: {:?}", e)),
            "u8 {:?}", s
        );
        assert_eq!(
            <u16 as TypeConverter>::convert_from_str(s),
            s.parse::<u16>().map_err(|e| format!("Conversion error for u16: {:?}", e)),
            "u16 {:?}", s
        );
        assert_eq!(
            <u32 as TypeConverter>::convert_from_str(s),
            s.parse::<u32>().map_err(|e| format!("Conversion error for u32: {:?}", e)),
            "u32 {:?}", s
        );
        assert_eq!(
            <u64 as TypeConverter>::convert_from_str(s),
            s.parse::<u64>().map_err(|e| format!("Conversion error for u64: {:?}", e)),
            "u64 {:?}", s
        );
        assert_eq!(
            <usize as TypeConverter>::convert_from_str(s),
            s.parse::<usize>().map_err(|e| format!("Conversion error for usize: {:?}", e)),
            "usize {:?}", s
        );
    }
}

#[test]
fn integer_failures_by_kind() {
    assert_eq!(parse_integer("", -128, 127), Err(IntErrorKind::Empty));
    assert_eq!(parse_integer("-", -128, 127), Err(IntErrorKind::InvalidDigit));
    assert_eq!(parse_integer("12x", -128, 127), Err(IntErrorKind::InvalidDigit));
    assert_eq!(parse_integer("128", -128, 127), Err(IntErrorKind::PosOverflow));
    assert_eq!(parse_integer("-129", -128, 127), Err(IntErrorKind::NegOverflow));
    assert_eq!(parse_integer("-5", 0, 255), Err(IntErrorKind::InvalidDigit));
    assert_eq!(parse_integer("-128", -128, 127), Ok(-128));
    assert_eq!(parse_integer("+127", -128, 127), Ok(127));
    assert_eq!(parse_integer("1280", -128, 127), Err(IntErrorKind::PosOverflow));
    assert_eq!(parse_integer("128x", -128, 127), Err(IntErrorKind::PosOverflow));
    assert_eq!(parse_integer("12x8", -128, 127), Err(IntErrorKind::InvalidDigit));
}

#[test]
fn booleans_are_read_as_std_reads_them() {
    for s in ["true", "false", "True", "", " true", "1", "falsee"] {
        assert_eq!(parse_boolean(s), s.parse::<bool>().ok());
        assert_eq!(
            <bool as TypeConverter>::convert_from_str(s),
            s.parse::<bool>().map_err(|e| format!("Conversion error for bool: {:?}", e))
        );
    }
}

#[test]
fn characters_are_read_one_at_a_time() {
    assert_eq!(<char as TypeConverter>::convert_from_str("x"), Ok('x'));
    assert_eq!(<char as TypeConverter>::convert_from_str("é"), Ok('é'));
    assert_eq!(
        <char as TypeConverter>::convert_from_str(""),
        Err("Empty string provided for char".to_string())
    );
    assert_eq!(
        <char as TypeConverter>::convert_from_str("xy"),
        Err("Expected a single character, got 'xy'".to_string())
    );
}

#[test]
fn strings_and_units_are_read() {
    assert_eq!(<String as TypeConverter>::convert_from_str(" a b "), Ok(" a b ".to_string()));
    assert_eq!(<() as TypeConverter>::convert_from_str(""), Ok(()));
    assert_eq!(<() as TypeConverter>::convert_from_str("  () \n"), Ok(()));
    assert_eq!(
        <() as TypeConverter>::convert_from_str("( )"),
        Err("Expected unit type (empty input or '()'), got '( )'".to_string())
    );
    assert!(parse_unit("\t"));
    assert!(!parse_unit("x"));
}

#[test]
fn conversion_is_checked_by_declared_type() {
    assert_eq!(conversion_error("i32", "12"), None);
    assert_eq!(
        conversion_error("i32", "1.5"),
        Some("Conversion error for i32: ParseIntError { kind: InvalidDigit }".to_string())
    );
    assert_eq!(
        conversion_error("u8", "256"),
        Some("Conversion error for u8: ParseIntError { kind: PosOverflow }".to_string())
    );
    assert_eq!(
        conversion_error("i8", "-129"),
        Some("Conversion error for i8: ParseIntError { kind: NegOverflow }".to_string())
    );
    assert_eq!(
        conversion_error("u64", ""),
        Some("Conversion error for u64: ParseIntError { kind: Empty }".to_string())
    );
    assert_eq!(conversion_error("bool", "true"), None);
    assert!(conversion_error("bool", "yes").is_some());
    assert_eq!(conversion_error("char", "c"), None);
    assert!(conversion_error("char", "cc").is_some());
    assert_eq!(conversion_error("()", " "), None);
    assert!(conversion_error("()", "x").is_some());
    assert_eq!(conversion_error("String", "anything"), None);
    assert_eq!(conversion_error("f32", "not a number"), None);
    assert_eq!(conversion_error("Vec<i32>", "[1"), None);
}

#[test]
fn white_space_is_what_std_calls_white_space() {
    let mut code: u32 = 0;
    while code <= 0x10FFFF {
        if let Some(c) = char::from_u32(code) {
            assert_eq!(char_is_whitespace(c), c.is_whitespace(), "U+{:04X}", code);
        }
        code += 1;
    }
}

#[test]
fn trim_is_what_std_trims() {
    for s in ["", " ", "a", " a", "a ", "\t a b \n", "\u{a0}x\u{3000}", "  \u{85}", "x\u{200b}", "é "] {
        assert_eq!(trim(s), s.trim());
    }
}

#[test]
fn prefixes_suffixes_and_substrings() {
    let hay = chars_of("<tool_call>abc</tool_call>");
    assert!(starts_with(&hay, &chars_of("<tool_call>")));
    assert!(!starts_with(&hay, &chars_of("</tool_call>")));
    assert!(ends_with(&hay, &chars_of("</tool_call>")));
    assert!(!ends_with(&hay, &chars_of("<tool_call>")));
    assert!(starts_with(&hay, &chars_of("")));
    assert!(ends_with(&hay, &chars_of("")));
    assert!(!starts_with(&chars_of("ab"), &chars_of("abc")));
    assert!(!ends_with(&chars_of("bc"), &chars_of("abc")));
    assert!(contains_chars(&hay, &chars_of("abc")));
    assert!(contains_chars(&hay, &chars_of("")));
    assert!(contains_chars(&hay, &chars_of("</tool_call>")));
    assert!(!contains_chars(&hay, &chars_of("abd")));
    assert!(!contains_chars(&chars_of(""), &chars_of("a")));
    assert!(contains_chars(&chars_of(""), &chars_of("")));
    assert!(str_equal("été", "été"));
    assert!(!str_equal("a", "b"));
}

#[test]
fn lower_case_search_and_decimal_digits() {
    assert!(lowercase_contains("The PLANNER agent", "plan"));
    assert!(lowercase_contains("planning", "plan"));
    assert!(!lowercase_contains("assistant", "plan"));
    assert_eq!(decimal_string(0), "0");
    assert_eq!(decimal_string(7), "7");
    assert_eq!(decimal_string(10), "10");
    assert_eq!(decimal_string(1234567890), "1234567890");
    assert_eq!(decimal_string(usize::MAX), usize::MAX.to_string());
}

#[test]
fn debug_of_an_optional_text() {
    for s in [None, Some("".to_string()), Some("a \"b\"\n\t\\ é \u{7f}".to_string())] {
        assert_eq!(debug_option(&s), format!("{:?}", s));
    }
}
