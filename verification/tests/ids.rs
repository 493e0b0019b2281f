use tenant::utils::domains_ids::EntityId;

const HEX: &str = "507f1f77bcf86cd799439011";

#[test]
fn parse_reads_the_twelve_bytes() {
    let id = EntityId::parse_str(HEX).expect("valid id");
    assert_eq!(id.bytes, [0x50, 0x7f, 0x1f, 0x77, 0xbc, 0xf8, 0x6c, 0xd7, 0x99, 0x43, 0x90, 0x11]);
}

#[test]
fn hex_text_reads_back_as_the_same_id() {
    let id = EntityId { bytes: [0, 1, 2, 3, 4, 5, 250, 251, 252, 253, 254, 255] };
    let text = id.to_hex();
    assert_eq!(text, "000102030405fafbfcfdfeff");
    let back = EntityId::parse_str(&text).expect("own text parses");
    assert!(back.same_as(&id));
}

#[test]
fn upper_case_digits_are_read() {
    let id = EntityId::parse_str("507F1F77BCF86CD799439011").expect("upper case parses");
    assert_eq!(id.to_hex(), HEX);
}

#[test]
fn texts_that_are_not_ids_are_refused() {
    assert!(EntityId::parse_str("507f1f77bcf86cd79943901").is_none());
    assert!(EntityId::parse_str("507f1f77bcf86cd7994390111").is_none());
    assert!(EntityId::parse_str("507f1f77bcf86cd79943901g").is_none());
    assert!(EntityId::parse_str("my-tenant.example.com").is_none());
    assert!(EntityId::parse_str("").is_none());
}

#[test]
fn same_as_compares_every_byte() {
    let a = EntityId::parse_str(HEX).unwrap();
    let b = EntityId::parse_str("507f1f77bcf86cd799439012").unwrap();
    assert!(a.same_as(&a));
    assert!(!a.same_as(&b));
}
