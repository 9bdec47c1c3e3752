use elerem::ulid::{pack_ulid_bytes, Ulid};

#[test]
fn identifiers_are_hex_strings() {
    let mut gen = Ulid::new();
    let id = gen.generate(&7);
    assert_eq!(id.len(), 32);
    assert!(id.chars().all(|c| c.is_ascii_hexdigit() && !c.is_ascii_uppercase()));
}

#[test]
fn sequence_counter_advances() {
    let mut gen = Ulid::new();
    let first = gen.generate(&7);
    let second = gen.generate(&7);
    // The last two bytes carry the sequence: 1 then 2.
    assert_eq!(&first[28..32], "0001");
    assert_eq!(&second[28..32], "0002");
}

#[test]
fn same_user_same_entropy_bytes() {
    let mut a = Ulid::new();
    let mut b = Ulid::new();
    let x = a.generate(&42);
    let y = b.generate(&42);
    // Bytes 6 to 13 hold the user hash: equal for equal users in one build.
    assert_eq!(&x[12..28], &y[12..28]);
}

#[test]
fn packing_is_exact() {
    let b = pack_ulid_bytes(0x0102030405060708, 0x1112131415161718, 0xABCD);
    assert_eq!(
        b,
        [
            0x03, 0x04, 0x05, 0x06, 0x07, 0x08, 0x11, 0x12, 0x13, 0x14, 0x15, 0x16, 0x17, 0x18,
            0xAB, 0xCD
        ]
    );
}

#[test]
fn bytes_render_as_lower_hex() {
    let b = [
        0x00u8, 0x01, 0x0A, 0x10, 0xFF, 0x7F, 0x80, 0x55, 0xAA, 0x09, 0x90, 0x0F, 0xF0, 0x33,
        0xCC, 0x5A,
    ];
    assert_eq!(Ulid::bytes_to_string(b), "00010a10ff7f8055aa09900ff033cc5a");
}
