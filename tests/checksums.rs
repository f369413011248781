use rust_hasher::{checksum, checksum_chunks, checksum_hex, checksum_line, ChecksumComputer, CHUNK_SIZE};

#[test]
fn empty_input_has_identity_checksum() {
    assert_eq!(checksum(&[]), 0);
    let c = ChecksumComputer::new();
    assert_eq!(c.finish(), 0);
}

#[test]
fn known_checksum_values() {
    assert_eq!(checksum(b"hello"), 0x3610a686);
    assert_eq!(checksum(b"world"), 0x3a771143);
    assert_eq!(checksum(b"123456789"), 0xcbf43926);
}

#[test]
fn checksum_is_deterministic() {
    let data: Vec<u8> = (0..1000u32).map(|i| (i * 7 % 251) as u8).collect();
    assert_eq!(checksum(&data), checksum(&data.clone()));
}

#[test]
fn chunking_does_not_change_checksum() {
    let data: Vec<u8> = (0..5000u32).map(|i| (i * 31 % 256) as u8).collect();
    let whole = checksum(&data);
    for size in [1usize, 2, 3, 7, 64, 1000, 4999, 5000, 8192] {
        let chunks: Vec<Vec<u8>> = data.chunks(size).map(|c| c.to_vec()).collect();
        assert_eq!(checksum_chunks(&chunks), whole, "chunk size {}", size);
    }
    let uneven = vec![data[..1].to_vec(), Vec::new(), data[1..4000].to_vec(), data[4000..].to_vec()];
    assert_eq!(checksum_chunks(&uneven), whole);
}

#[test]
fn computer_stops_on_empty_read() {
    let mut c = ChecksumComputer::new();
    assert!(!c.feed(b"hel"));
    assert!(!c.feed(b"lo"));
    assert_eq!(c.len_fed(), 5);
    assert!(c.feed(&[]));
    assert_eq!(c.len_fed(), 5);
    assert_eq!(c.finish(), 0x3610a686);
}

#[test]
fn computer_over_one_full_chunk() {
    let data = vec![0xabu8; CHUNK_SIZE + 3];
    let mut c = ChecksumComputer::new();
    assert!(!c.feed(&data[..CHUNK_SIZE]));
    assert!(!c.feed(&data[CHUNK_SIZE..]));
    assert!(c.feed(&[]));
    assert_eq!(c.finish(), checksum(&data));
    assert_eq!(CHUNK_SIZE, 1024 * 1024);
}

#[test]
fn single_byte_flip_changes_checksum() {
    let original = b"hello".to_vec();
    let base = checksum(&original);
    for i in 0..original.len() {
        for flip in [1u8, 0x80, 0xff] {
            let mut changed = original.clone();
            changed[i] ^= flip;
            assert_ne!(checksum(&changed), base);
        }
    }
    assert_eq!(checksum(b"hellp"), 0xbb18ab73);
}

#[test]
fn hex_is_eight_lowercase_digits() {
    assert_eq!(checksum_hex(0), "00000000");
    assert_eq!(checksum_hex(0xcbf43926), "cbf43926");
    assert_eq!(checksum_hex(0xabcdef), "00abcdef");
    assert_eq!(checksum_hex(u32::MAX), "ffffffff");
    assert_eq!(checksum_hex(0x10), "00000010");
}

#[test]
fn checksum_line_format() {
    assert_eq!(checksum_line(0x3610a686, "./a.txt"), "3610a686 ./a.txt");
    assert_eq!(checksum_line(1, "my file.txt"), "00000001 my file.txt");
}
