use usb_bos::bos::{BosDescriptor, PlatformCapabilityDescriptor};

fn ascending_uuid() -> [u8; 16] {
    let mut uuid = [0u8; 16];
    let mut i = 0usize;
    while i < 16 {
        uuid[i] = (i + 1) as u8;
        i += 1;
    }
    uuid
}

#[test]
fn empty_descriptor_serializes_to_header_only() {
    let d = BosDescriptor { capabilities: vec![] };
    let bytes = d.to_bytes();
    assert_eq!(bytes, vec![0x05, 0x0F, 0x05, 0x00, 0x00]);
}

#[test]
fn single_capability_layout() {
    let cap = PlatformCapabilityDescriptor::new(ascending_uuid(), 0x02, 0x00);
    let d = BosDescriptor::new(vec![cap]);
    let bytes = d.to_bytes();

    // Header: the declared total length is 5 + 28 = 33 = 0x21, little-endian.
    assert_eq!(&bytes[0..5], &[0x05, 0x0F, 0x21, 0x00, 0x01]);

    // One emitted sub-descriptor of 21 bytes follows the header.
    assert_eq!(bytes.len(), 26);
    let mut expected_block = vec![0x1C, 0x10, 0x05];
    expected_block.extend_from_slice(&ascending_uuid());
    expected_block.push(0x02);
    expected_block.push(0x00);
    assert_eq!(&bytes[5..26], &expected_block[..]);
}

#[test]
fn two_capabilities_layout() {
    let a = PlatformCapabilityDescriptor::new(ascending_uuid(), 0x02, 0x00);
    let b = PlatformCapabilityDescriptor::new([0xAA; 16], 0x07, 0x01);
    let d = BosDescriptor::new(vec![a, b]);
    let bytes = d.to_bytes();

    // Declared total length is 5 + 2 * 28 = 61 = 0x3D, little-endian.
    assert_eq!(bytes[2], 0x3D);
    assert_eq!(bytes[3], 0x00);
    // Capability count byte.
    assert_eq!(bytes[4], 2);
    // Two emitted sub-descriptors of 21 bytes each follow the 5-byte header.
    assert_eq!(bytes.len(), 47);
    // The second capability's block begins right after the first, at offset 26.
    assert_eq!(&bytes[26..29], &[0x1C, 0x10, 0x05]);
    assert_eq!(&bytes[29..45], &[0xAA; 16]);
    assert_eq!(bytes[45], 0x07);
    assert_eq!(bytes[46], 0x01);
}

#[test]
fn blocks_appear_in_capability_order() {
    let first = PlatformCapabilityDescriptor::new([0x11; 16], 0x01, 0x00);
    let second = PlatformCapabilityDescriptor::new([0x22; 16], 0x02, 0x00);
    let d = BosDescriptor::new(vec![first.clone(), second.clone()]);
    let bytes = d.to_bytes();
    assert_eq!(&bytes[5..26], &first.to_bytes()[..]);
    assert_eq!(&bytes[26..47], &second.to_bytes()[..]);
}

#[test]
fn serialize_is_idempotent() {
    let cap = PlatformCapabilityDescriptor::new(ascending_uuid(), 0x42, 0x00);
    let d = BosDescriptor::new(vec![cap.clone(), cap]);
    let once = d.to_bytes();
    let twice = d.to_bytes();
    assert_eq!(once, twice);
}

#[test]
fn count_byte_equals_number_of_capabilities() {
    let cap = PlatformCapabilityDescriptor::new([0u8; 16], 0x00, 0x00);
    let d = BosDescriptor::new(vec![cap.clone(), cap.clone(), cap]);
    let bytes = d.to_bytes();
    assert_eq!(bytes[4], 3);
    assert_eq!(bytes.len(), 5 + 21 * 3);
}

#[test]
fn total_length_field_is_declared_length() {
    for n in 0usize..6 {
        let cap = PlatformCapabilityDescriptor::new([0x5Au8; 16], 0x09, 0x00);
        let d = BosDescriptor::new(vec![cap; n]);
        let bytes = d.to_bytes();
        let field = bytes[2] as usize + 256 * bytes[3] as usize;
        assert_eq!(field, 5 + 28 * n);
        assert_eq!(bytes.len(), 5 + 21 * n);
    }
}

#[test]
fn capability_to_bytes_layout() {
    let cap = PlatformCapabilityDescriptor::new(ascending_uuid(), 0x02, 0x03);
    let bytes = cap.to_bytes();
    assert_eq!(bytes.len(), 21);
    assert_eq!(&bytes[0..3], &[0x1C, 0x10, 0x05]);
    assert_eq!(&bytes[3..19], &ascending_uuid());
    assert_eq!(bytes[19], 0x02);
    assert_eq!(bytes[20], 0x03);
}

#[test]
fn constructors_preserve_fields() {
    let uuid = ascending_uuid();
    let cap = PlatformCapabilityDescriptor::new(uuid, 0x0A, 0x0B);
    assert_eq!(cap.uuid, uuid);
    assert_eq!(cap.vendor_code, 0x0A);
    assert_eq!(cap.reserved, 0x0B);
    let d = BosDescriptor::new(vec![cap]);
    assert_eq!(d.capabilities.len(), 1);
    assert_eq!(d.capabilities[0].vendor_code, 0x0A);
}
