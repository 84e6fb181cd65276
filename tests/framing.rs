use blockpack::framing::{block_header, padding_to_align, record_metadata, record_total};
use blockpack::naming::block_suffix;

#[test]
fn header_bytes() {
    let h = block_header(0x0102030405060708);
    assert_eq!(h, vec![b'c', b'f', b'1', 0, 0, 0, 0, 0, 1, 2, 3, 4, 5, 6, 7, 8]);
    let h0 = block_header(0);
    assert_eq!(h0, b"cf1\0\0\0\0\0\0\0\0\0\0\0\0\0".to_vec());
}

#[test]
fn metadata_bytes() {
    let m = record_metadata(100, &vec![]);
    assert_eq!(m, vec![0, 0, 0, 0, 0, 0, 0, 116, 0, 0, 0, 0, 0, 0, 0, 0]);
    let m = record_metadata(0x100, &b"ab".to_vec());
    assert_eq!(
        m,
        vec![0, 0, 0, 0, 0, 0, 1, 18, 0, 0, 0, 0, 0, 0, 0, 2, b'a', b'b']
    );
}

#[test]
fn total_lengths() {
    assert_eq!(record_total(100, 0), Some(116));
    assert_eq!(record_total(0, 0), Some(16));
    assert_eq!(record_total(5, 3), Some(24));
    assert_eq!(record_total(u64::MAX - 16, 0), Some(u64::MAX));
    assert_eq!(record_total(u64::MAX - 15, 0), None);
    assert_eq!(record_total(0, u64::MAX), None);
}

#[test]
fn alignment_padding() {
    assert_eq!(padding_to_align(0), 0);
    assert_eq!(padding_to_align(16), 0);
    assert_eq!(padding_to_align(132), 12);
    assert_eq!(padding_to_align(17), 15);
    assert_eq!(padding_to_align(31), 1);
}

#[test]
fn block_names() {
    assert_eq!(block_suffix(0), b".0000000000000000000000".to_vec());
    assert_eq!(block_suffix(42), b".0000000000000000000042".to_vec());
    assert_eq!(block_suffix(u64::MAX), b".0018446744073709551615".to_vec());
}
