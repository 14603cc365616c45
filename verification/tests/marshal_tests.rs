use flash_syscalls::marshal::{marshal_into, word_from_byte_quad};

#[test]
fn word_assembly_is_little_endian() {
    assert_eq!(word_from_byte_quad(0x78, 0x56, 0x34, 0x12), 0x1234_5678);
    assert_eq!(word_from_byte_quad(0, 0, 0, 0), 0);
    assert_eq!(word_from_byte_quad(0xFF, 0xFF, 0xFF, 0xFF), 0xFFFF_FFFF);
    assert_eq!(word_from_byte_quad(1, 0, 0, 0), 1);
    assert_eq!(word_from_byte_quad(0, 0, 0, 1), 0x0100_0000);
}

#[test]
fn marshalling_fills_scratch_from_index_zero() {
    let mut scratch = vec![0xAAAA_AAAAu32; 32];
    let bytes = vec![0x01, 0x02, 0x03, 0x04, 0x05, 0x06, 0x07, 0x08];
    let count = marshal_into(&mut scratch, &bytes);
    assert_eq!(count, 2);
    assert_eq!(scratch[0], 0x0403_0201);
    assert_eq!(scratch[1], 0x0807_0605);
    // Words past the count keep their old values.
    for w in scratch.iter().skip(2) {
        assert_eq!(*w, 0xAAAA_AAAA);
    }
}

#[test]
fn marshalling_empty_region_writes_nothing() {
    let mut scratch = vec![7u32; 32];
    let bytes: Vec<u8> = Vec::new();
    assert_eq!(marshal_into(&mut scratch, &bytes), 0);
    assert!(scratch.iter().all(|w| *w == 7));
}

#[test]
fn marshalling_full_capacity() {
    let mut scratch = vec![0u32; 32];
    let bytes: Vec<u8> = (0..128).map(|i| i as u8).collect();
    assert_eq!(marshal_into(&mut scratch, &bytes), 32);
    assert_eq!(scratch[0], u32::from_le_bytes([0, 1, 2, 3]));
    assert_eq!(scratch[31], u32::from_le_bytes([124, 125, 126, 127]));
}
