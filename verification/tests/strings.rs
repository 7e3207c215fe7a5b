use mulder::utils::strings::{push_decimal, push_hex_padded, push_signed_decimal, str_eq};

#[test]
fn decimals() {
    for n in [0u64, 7, 10, 99, 100, 12345, u64::MAX] {
        let mut s = String::from("n=");
        push_decimal(&mut s, n);
        assert_eq!(s, format!("n={}", n));
    }
    for i in [0i64, -1, 42, -987654321, i64::MIN, i64::MAX] {
        let mut s = String::new();
        push_signed_decimal(&mut s, i);
        assert_eq!(s, i.to_string());
    }
}

#[test]
fn hexadecimals() {
    for n in [0u64, 1, 0xdeadbeef, u64::MAX, 0x0123456789abcdef] {
        let mut s = String::new();
        push_hex_padded(&mut s, n, 16);
        assert_eq!(s, format!("{:016x}", n));
    }
    let mut s = String::new();
    push_hex_padded(&mut s, 0x1234, 2);
    assert_eq!(s, "34");
}

#[test]
fn equality() {
    assert!(str_eq("Water", "Water"));
    assert!(!str_eq("Water", "water"));
    assert!(!str_eq("Water", "Wate"));
    assert!(str_eq("", ""));
    assert!(str_eq("Héé", "Héé"));
}
