use link_shortener::ident::{decimal_bytes, generate_id, id_from_number};

#[test]
fn decimal_bytes_renders_base_ten() {
    assert_eq!(decimal_bytes(0), b"0".to_vec());
    assert_eq!(decimal_bytes(7), b"7".to_vec());
    assert_eq!(decimal_bytes(10), b"10".to_vec());
    assert_eq!(decimal_bytes(1234509), b"1234509".to_vec());
    assert_eq!(decimal_bytes(u32::MAX), b"4294967295".to_vec());
}

#[test]
fn id_from_number_encodes_decimal_as_base64() {
    assert_eq!(id_from_number(0), "MA");
    assert_eq!(id_from_number(123), "MTIz");
    assert_eq!(id_from_number(4294967294), "NDI5NDk2NzI5NA");
}

#[test]
fn generate_id_is_url_safe_token() {
    for _ in 0..100 {
        let id = generate_id();
        assert!(!id.is_empty());
        assert!(id.len() <= 14);
        assert!(id.chars().all(|c| c.is_ascii_alphanumeric() || c == '-' || c == '_'));
    }
}
