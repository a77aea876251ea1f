use audio_decoder::source::ByteSource;

#[test]
fn byte_source_sequential_read() {
    let mut s = ByteSource::new(vec![10, 20, 30]);
    assert_eq!(s.len(), 3);
    assert_eq!(s.position(), 0);
    assert_eq!(s.read_u8(), Some(10));
    assert_eq!(s.read_u8(), Some(20));
    assert_eq!(s.read_u8(), Some(30));
    assert_eq!(s.position(), 3);
    assert_eq!(s.read_u8(), None);
    assert_eq!(s.position(), 3);
}

#[test]
fn byte_source_seek_and_read_at() {
    let mut s = ByteSource::new(vec![1, 2, 3, 4, 5]);
    s.seek(3);
    assert_eq!(s.position(), 3);
    assert_eq!(s.read_u8(), Some(4));
    assert_eq!(s.read_at(0), 1);
    assert_eq!(s.position(), 1);
}

#[test]
fn byte_source_multibyte_little_endian() {
    let mut s = ByteSource::new(vec![0x01, 0x02, 0xff, 0x7f, 0x00, 0x80]);
    assert_eq!(s.read_u16_le_at(0), 0x0201);
    assert_eq!(s.read_u32_le_at(0), 0x7fff0201);
    assert_eq!(s.read_i16_le_at(2), 32767);
    assert_eq!(s.read_i16_le_at(4), -32768);
}

#[test]
fn byte_source_empty() {
    let mut s = ByteSource::new(Vec::new());
    assert_eq!(s.len(), 0);
    assert_eq!(s.read_u8(), None);
}
