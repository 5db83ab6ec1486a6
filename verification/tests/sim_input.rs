use rpc_interceptor::sim_input::{
    argument_list_of, ensure_hex_prefix, hex_string, normalize_value_hex, parse_decimal_u128, starts_with_hex_prefix,
    trim_str,
};

#[test]
fn value_defaults_to_zero() {
    assert_eq!(normalize_value_hex(None).unwrap(), "0x0");
}

#[test]
fn hex_values_are_kept() {
    assert_eq!(normalize_value_hex(Some("0x1F".to_string())).unwrap(), "0x1F");
    assert_eq!(normalize_value_hex(Some("0Xab".to_string())).unwrap(), "0Xab");
}

#[test]
fn decimal_values_become_hex() {
    assert_eq!(normalize_value_hex(Some("255".to_string())).unwrap(), "0xff");
    assert_eq!(normalize_value_hex(Some("0".to_string())).unwrap(), "0x0");
    assert_eq!(normalize_value_hex(Some("+10".to_string())).unwrap(), "0xa");
    assert_eq!(
        normalize_value_hex(Some("1000000000000000000".to_string())).unwrap(),
        "0xde0b6b3a7640000"
    );
    assert_eq!(
        normalize_value_hex(Some(u128::MAX.to_string())).unwrap(),
        format!("0x{:x}", u128::MAX)
    );
}

#[test]
fn bad_values_are_refused() {
    assert!(normalize_value_hex(Some("abc".to_string())).is_err());
    assert!(normalize_value_hex(Some("".to_string())).is_err());
    assert!(normalize_value_hex(Some("+".to_string())).is_err());
    assert!(normalize_value_hex(Some("-1".to_string())).is_err());
    assert!(normalize_value_hex(Some(" 1".to_string())).is_err());
    assert!(normalize_value_hex(Some("340282366920938463463374607431768211456".to_string())).is_err());
}

#[test]
fn decimal_parser_matches_std() {
    for t in ["0", "7", "+7", "0012", "99999999999999999999", "", "+", "1a", "-3", "340282366920938463463374607431768211455"] {
        assert_eq!(parse_decimal_u128(t), t.parse::<u128>().ok(), "input {:?}", t);
    }
}

#[test]
fn hex_formatting_matches_std() {
    for n in [0u128, 1, 15, 16, 255, 4096, 1 << 100, u128::MAX] {
        assert_eq!(hex_string(n), format!("{:x}", n));
    }
}

#[test]
fn calldata_gets_prefix() {
    assert_eq!(ensure_hex_prefix("  a9059cbb\n"), "0xa9059cbb");
    assert_eq!(ensure_hex_prefix("0xa9059cbb\n"), "0xa9059cbb");
    assert_eq!(ensure_hex_prefix("0Xab"), "0x0Xab");
    assert_eq!(ensure_hex_prefix(""), "0x");
}

#[test]
fn prefix_check() {
    assert!(starts_with_hex_prefix("0x", false));
    assert!(!starts_with_hex_prefix("0X", false));
    assert!(starts_with_hex_prefix("0X", true));
    assert!(!starts_with_hex_prefix("0", true));
}

#[test]
fn trim_matches_std() {
    for t in ["", "  ", " a b ", "\tx\n", "\u{3000}y\u{a0}", "z"] {
        assert_eq!(trim_str(t), t.trim());
    }
}

#[test]
fn comma_separated_arguments_are_trimmed() {
    assert_eq!(argument_list_of("0xabc, 1000"), vec!["0xabc", "1000"]);
    assert_eq!(argument_list_of(" a ,, b ,"), vec!["a", "b"]);
}

#[test]
fn whitespace_separated_arguments() {
    assert_eq!(argument_list_of("0xabc 1000"), vec!["0xabc", "1000"]);
    assert_eq!(argument_list_of("  a \t b\n"), vec!["a", "b"]);
    assert!(argument_list_of("").is_empty());
    assert!(argument_list_of("   ").is_empty());
}

#[test]
fn argument_split_matches_std() {
    for raw in ["x y  z", "x,y", " , ", "a b,c d", "solo"] {
        let expected: Vec<String> = if raw.contains(',') {
            raw.split(',').map(|s| s.trim().to_string()).filter(|s| !s.is_empty()).collect()
        } else {
            raw.split_whitespace().map(|s| s.to_string()).collect()
        };
        assert_eq!(argument_list_of(raw), expected);
    }
}

#[test]
fn trim_drops_every_unicode_space() {
    let spaces = [
        '\u{9}', '\u{a}', '\u{b}', '\u{c}', '\u{d}', '\u{20}', '\u{85}', '\u{a0}', '\u{1680}', '\u{2000}', '\u{2005}',
        '\u{200a}', '\u{2028}', '\u{2029}', '\u{202f}', '\u{205f}', '\u{3000}',
    ];
    for c in spaces {
        let t = format!("{}x y{}", c, c);
        assert_eq!(trim_str(&t), "x y");
    }
    assert_eq!(trim_str("\u{200b}x"), "\u{200b}x");
}
