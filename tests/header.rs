use wasmer_artifact_core::error::DeserializeError;
use wasmer_artifact_core::header::MetadataHeader;

fn header_for(len: usize) -> Vec<u8> {
    MetadataHeader::new(len).to_vec()
}

#[test]
fn new_writes_magic_version_and_length() {
    let h = MetadataHeader::new(0x0102_0304);
    assert_eq!(&h[0..8], b"WASMER\0\0");
    assert_eq!(&h[8..12], &[1, 0, 0, 0]);
    assert_eq!(&h[12..16], &[4, 3, 2, 1]);
}

#[test]
fn parse_at_reads_back_the_length() {
    for len in [0usize, 1, 255, 256, 65_536, 123_456_789, u32::MAX as usize] {
        let h = header_for(len);
        assert_eq!(MetadataHeader::parse_at(&h, 0).ok(), Some(len));
        assert_eq!(MetadataHeader::parse_at(&h, 4096).ok(), Some(len));
    }
}

#[test]
fn parse_at_ignores_bytes_after_the_header() {
    let mut h = header_for(7);
    h.extend_from_slice(&[9, 9, 9, 9, 9, 9, 9]);
    assert_eq!(MetadataHeader::parse_at(&h, 16).ok(), Some(7));
}

#[test]
fn parse_at_misaligned_is_corrupted() {
    let h = header_for(10);
    for address in [1usize, 8, 15, 17] {
        assert!(matches!(
            MetadataHeader::parse_at(&h, address),
            Err(DeserializeError::CorruptedBinary(_))
        ));
    }
}

#[test]
fn parse_at_short_buffer_is_corrupted() {
    let h = header_for(10);
    for n in 0..16 {
        assert!(matches!(
            MetadataHeader::parse_at(&h[..n], 0),
            Err(DeserializeError::CorruptedBinary(_))
        ));
    }
}

#[test]
fn parse_at_altered_magic_is_incompatible() {
    for i in 0..8 {
        let mut h = header_for(10);
        h[i] ^= 0x20;
        assert!(matches!(
            MetadataHeader::parse_at(&h, 0),
            Err(DeserializeError::Incompatible(_))
        ));
    }
}

#[test]
fn parse_at_other_version_is_incompatible() {
    let mut h = header_for(10);
    h[8] = 2;
    assert!(matches!(
        MetadataHeader::parse_at(&h, 0),
        Err(DeserializeError::Incompatible(_))
    ));
    let mut h = header_for(10);
    h[11] = 1;
    assert!(matches!(
        MetadataHeader::parse_at(&h, 0),
        Err(DeserializeError::Incompatible(_))
    ));
}

#[test]
fn parse_eight_byte_buffer_is_corrupted_not_a_panic() {
    let bytes = [0u8; 8];
    assert!(matches!(
        MetadataHeader::parse(&bytes),
        Err(DeserializeError::CorruptedBinary(_))
    ));
}

#[test]
fn parse_never_panics_on_a_real_header() {
    let h = header_for(42);
    match MetadataHeader::parse(&h) {
        Ok(n) => assert_eq!(n, 42),
        Err(e) => assert!(matches!(e, DeserializeError::CorruptedBinary(_))),
    }
}

#[test]
fn error_messages_are_kept() {
    let e = MetadataHeader::parse_at(&[0u8; 4], 0).err().unwrap();
    assert_eq!(e.message(), "invalid metadata header");
    let e = MetadataHeader::parse_at(&[0u8; 16], 3).err().unwrap();
    assert_eq!(e.message(), "misaligned metadata");
}

#[test]
fn header_constants() {
    assert_eq!(MetadataHeader::LEN, 16);
    assert_eq!(MetadataHeader::ALIGN, 16);
    assert_eq!(MetadataHeader::CURRENT_VERSION, 1);
}
