use rustyfix::asn1::{
    Asn1Boolean, Asn1Bytes, Asn1Integer, Asn1String, Asn1UInteger, FieldBuffer, HeaderBuffer,
    MessageBuffer,
};
use rustyfix::{Buffer, FieldType};

#[test]
fn test_field_buffer() {
    let mut buffer = FieldBuffer::new();
    assert!(buffer.is_empty());
    assert!(buffer.is_inline());

    buffer.extend_from_slice(b"Hello, World!");
    assert_eq!(buffer.as_slice(), b"Hello, World!");
    assert!(buffer.is_inline());
}

#[test]
fn test_header_buffer() {
    let mut buffer = HeaderBuffer::new();
    assert!(buffer.is_empty());

    buffer.extend_from_slice(b"Header data");
    assert_eq!(buffer.as_slice(), b"Header data");
}

#[test]
fn test_message_buffer() {
    let mut buffer = MessageBuffer::new();
    assert!(buffer.is_empty());

    buffer.extend_from_slice(b"Message data");
    assert_eq!(buffer.as_slice(), b"Message data");
}

#[test]
fn a_buffer_grows_beyond_its_own_room() {
    let mut buffer = FieldBuffer::with_capacity(10);
    assert_eq!(buffer.len(), 0);
    assert!(buffer.capacity() >= 64);
    buffer.extend_from_slice(&[7u8; 60]);
    assert!(buffer.is_inline());
    buffer.extend_from_slice(&[8u8; 10]);
    assert_eq!(buffer.len(), 70);
    assert!(!buffer.is_inline());
    assert!(buffer.capacity() >= 70);
    assert_eq!(&buffer.as_slice()[58..62], &[7, 7, 8, 8]);
    let copy = buffer.clone();
    buffer.clear();
    assert!(buffer.is_empty());
    assert_eq!(copy.len(), 70);
    assert!(FieldBuffer::with_capacity(100).capacity() >= 100);
    assert!(FieldBuffer::default().is_empty());

    let mut header = HeaderBuffer::default();
    header.extend_from_slice(b"8=FIX.4.4");
    assert_eq!(header.len(), 9);
    assert!(!header.is_empty());
    let copy = header.clone();
    header.clear();
    assert_eq!(header.len(), 0);
    assert_eq!(copy.as_slice(), b"8=FIX.4.4");

    let mut message = MessageBuffer::default();
    message.extend_from_slice(&[1u8; 300]);
    assert_eq!(message.len(), 300);
    assert_eq!(message.clone().as_slice(), &[1u8; 300][..]);
    message.clear();
    assert!(message.is_empty());
}

fn write_into<B: Buffer>(buffer: &mut B) -> usize {
    Asn1String::from("ab").serialize(buffer)
        + Asn1Integer::from(-12i64).serialize(buffer)
        + Asn1UInteger::from(7u64).serialize(buffer)
        + Asn1Boolean::from(true).serialize(buffer)
        + Asn1Bytes::from(vec![0xffu8]).serialize(buffer)
}

#[test]
fn values_are_written_into_every_buffer() {
    let expected: &[u8] = &[b'a', b'b', b'-', b'1', b'2', b'7', b'Y', 0xff];
    let mut field = FieldBuffer::new();
    assert_eq!(write_into(&mut field), 8);
    assert_eq!(field.as_slice(), expected);
    let mut header = HeaderBuffer::new();
    assert_eq!(write_into(&mut header), 8);
    assert_eq!(header.as_slice(), expected);
    let mut message = MessageBuffer::new();
    assert_eq!(write_into(&mut message), 8);
    assert_eq!(message.as_slice(), expected);
    let mut bytes: Vec<u8> = Vec::new();
    assert_eq!(write_into(&mut bytes), 8);
    assert_eq!(bytes, expected);
}
