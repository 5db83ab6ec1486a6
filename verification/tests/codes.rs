use rpc_interceptor::codes::{rand_u64, short_code, short_code_from, u64_from_be_prefix, CODE_LEN};

fn is_base36(c: char) -> bool {
    c.is_ascii_digit() || ('a'..='z').contains(&c)
}

#[test]
fn short_code_of_zero_is_all_zero_digits() {
    assert_eq!(short_code_from(0), "000000");
}

#[test]
fn short_code_puts_least_significant_digit_first() {
    assert_eq!(short_code_from(35), "z00000");
    assert_eq!(short_code_from(36), "010000");
    assert_eq!(short_code_from(10), "a00000");
    assert_eq!(short_code_from(36 * 36 + 2), "201000");
}

#[test]
fn short_code_keeps_only_six_digits() {
    let m: u64 = 36u64.pow(6);
    assert_eq!(short_code_from(m), short_code_from(0));
    assert_eq!(short_code_from(m + 5), short_code_from(5));
    assert_ne!(short_code_from(m - 1), short_code_from(0));
    assert_eq!(short_code_from(m - 1), "zzzzzz");
}

#[test]
fn short_code_of_max_value() {
    // u64::MAX = 18446744073709551615; its six lowest base-36 digits
    let mut n = u64::MAX;
    let mut expected = String::new();
    for _ in 0..6 {
        let d = (n % 36) as u32;
        n /= 36;
        expected.push(std::char::from_digit(d, 36).unwrap());
    }
    assert_eq!(short_code_from(u64::MAX), expected);
}

#[test]
fn random_code_has_six_base36_chars() {
    for _ in 0..20 {
        let code = short_code();
        assert_eq!(code.chars().count(), CODE_LEN);
        assert!(code.chars().all(is_base36));
    }
}

#[test]
fn be_prefix_reads_first_eight_bytes_big_endian() {
    let mut bytes = [0u8; 16];
    bytes[0] = 0x01;
    bytes[7] = 0xff;
    bytes[8] = 0xaa; // ignored
    assert_eq!(u64_from_be_prefix(&bytes), 0x0100_0000_0000_00ff);
    let all = [0xffu8; 16];
    assert_eq!(u64_from_be_prefix(&all), u64::MAX);
    assert_eq!(u64_from_be_prefix(&[0u8; 16]), 0);
}

#[test]
fn random_values_vary() {
    let a = rand_u64();
    let b = rand_u64();
    let c = rand_u64();
    assert!(!(a == b && b == c));
}

#[test]
fn rand_u64_carries_uuid_version() {
    for _ in 0..32 {
        let v = rand_u64();
        assert_eq!((v >> 12) & 0xf, 4);
    }
}
