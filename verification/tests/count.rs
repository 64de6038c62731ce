use tokio_periodic::count::{decode, encode, ByteOrder};

#[test]
fn decodes_by_byte_order() {
    let buf = [1, 2, 3, 4, 5, 6, 7, 8];
    assert_eq!(decode(&buf, ByteOrder::Little), 0x0807_0605_0403_0201);
    assert_eq!(decode(&buf, ByteOrder::Big), 0x0102_0304_0506_0708);
    assert_eq!(decode(&[0xff; 8], ByteOrder::Little), u64::MAX);
}

#[test]
fn encodes_as_the_standard_library_does() {
    for count in [0, 1, 0xff, 0x100, 0x0123_4567_89ab_cdef, u64::MAX - 1, u64::MAX] {
        let mut little = [0xaa; 8];
        encode(count, ByteOrder::Little, &mut little);
        assert_eq!(little, count.to_le_bytes());
        assert_eq!(decode(&little, ByteOrder::Little), count);
        let mut big = [0xaa; 8];
        encode(count, ByteOrder::Big, &mut big);
        assert_eq!(big, count.to_be_bytes());
        assert_eq!(decode(&big, ByteOrder::Big), count);
    }
}

#[test]
fn encodes_into_the_first_eight_bytes_only() {
    let mut buf = [0xaa; 11];
    encode(3, ByteOrder::Little, &mut buf);
    assert_eq!(buf, [3, 0, 0, 0, 0, 0, 0, 0, 0xaa, 0xaa, 0xaa]);
}
