use wayland_client_from_scratch::protocol::error::WlError;
use wayland_client_from_scratch::protocol::message::{
    WlMessage, WlMessageHeader, WlMessageIter, WL_MESSAGE_HEADER_LEN, WL_MESSAGE_MAX_PAYLOAD,
};

fn header_bytes(object_id: u32, opcode: u16, size: u16) -> Vec<u8> {
    let mut out = object_id.to_ne_bytes().to_vec();
    out.extend_from_slice(&opcode.to_ne_bytes());
    out.extend_from_slice(&size.to_ne_bytes());
    out
}

#[test]
fn header_wire_form() {
    let h = WlMessageHeader { object_id: 0x0102_0304, opcode: 0x0506, size: 0x0708 };
    assert_eq!(h.to_bytes(), header_bytes(0x0102_0304, 0x0506, 0x0708));
    assert_eq!(h.to_bytes().len(), WL_MESSAGE_HEADER_LEN);
    assert_eq!(h.message_len(), 0x0708);
}

#[test]
fn header_round_trip() {
    let h = WlMessageHeader { object_id: 3, opcode: 9, size: 24 };
    assert_eq!(WlMessageHeader::from_bytes(&h.to_bytes()), Ok(h));
}

#[test]
fn header_reads_only_its_eight_bytes() {
    let mut buf = header_bytes(1, 2, 3);
    buf.extend_from_slice(&[0xff; 5]);
    assert_eq!(
        WlMessageHeader::from_bytes(&buf),
        Ok(WlMessageHeader { object_id: 1, opcode: 2, size: 3 })
    );
}

#[test]
fn header_from_short_buffer_is_truncated() {
    assert_eq!(WlMessageHeader::from_bytes(&[]), Err(WlError::TruncatedBuffer));
    assert_eq!(WlMessageHeader::from_bytes(&[0; 7]), Err(WlError::TruncatedBuffer));
}

#[test]
fn message_declares_header_plus_payload() {
    let m = WlMessage::new(5, 2, &[1, 2, 3, 4]);
    assert_eq!(m.header(), WlMessageHeader { object_id: 5, opcode: 2, size: 12 });
    assert_eq!(m.object_id(), 5);
    assert_eq!(m.opcode(), 2);
    assert_eq!(m.payload(), &[1, 2, 3, 4]);
}

#[test]
fn message_wire_form() {
    let m = WlMessage::new(5, 2, &[1, 2, 3, 4]);
    let mut expected = header_bytes(5, 2, 12);
    expected.extend_from_slice(&[1, 2, 3, 4]);
    assert_eq!(m.to_bytes(), expected);
}

#[test]
fn message_without_payload() {
    let m = WlMessage::new(1, 0, &[]);
    assert_eq!(m.header().size, 8);
    assert_eq!(m.to_bytes(), header_bytes(1, 0, 8));
}

#[test]
fn message_with_the_longest_payload() {
    let payload = vec![0x5a; WL_MESSAGE_MAX_PAYLOAD];
    let m = WlMessage::new(1, 0, &payload);
    assert_eq!(m.header().size, u16::MAX);
    assert_eq!(m.to_bytes().len(), 65535);
    assert_eq!(WlMessage::from_bytes(&m.to_bytes()), Ok(m));
}

#[test]
fn message_round_trip() {
    for len in [0usize, 1, 4, 17, 300] {
        let payload: Vec<u8> = (0..len).map(|i| (i % 251) as u8).collect();
        let m = WlMessage::new(0xdead_beef, 0xabcd, &payload);
        let wire = m.to_bytes();
        assert_eq!(wire.len(), 8 + len);
        let back = WlMessage::from_bytes(&wire).unwrap();
        assert_eq!(back.object_id(), 0xdead_beef);
        assert_eq!(back.opcode(), 0xabcd);
        assert_eq!(back.payload(), payload.as_slice());
        assert_eq!(back.header().message_len(), 8 + len);
    }
}

#[test]
fn message_decode_stops_at_the_declared_length() {
    let mut buf = WlMessage::new(2, 1, &[7, 7, 7, 7]).to_bytes();
    buf.extend_from_slice(&WlMessage::new(2, 0, &[8, 8, 8, 8]).to_bytes());
    let first = WlMessage::from_bytes(&buf).unwrap();
    assert_eq!(first.payload(), &[7, 7, 7, 7]);
    assert_eq!(first.header().size, 12);
}

#[test]
fn message_without_whole_header_is_truncated() {
    assert_eq!(WlMessage::from_bytes(&[0; 7]), Err(WlError::TruncatedBuffer));
}

#[test]
fn message_shorter_than_declared_is_truncated() {
    let mut buf = header_bytes(1, 0, 16);
    buf.extend_from_slice(&[0; 7]);
    assert_eq!(WlMessage::from_bytes(&buf), Err(WlError::TruncatedBuffer));
}

#[test]
fn message_that_declares_less_than_a_header_is_truncated() {
    let mut buf = header_bytes(1, 0, 4);
    buf.extend_from_slice(&[0; 8]);
    assert_eq!(WlMessage::from_bytes(&buf), Err(WlError::TruncatedBuffer));
}

#[test]
fn message_clone_is_equal() {
    let m = WlMessage::new(4, 4, &[4, 4]);
    assert_eq!(m.clone(), m);
}

#[test]
fn iter_yields_messages_in_order() {
    let a = WlMessage::new(2, 0, &[1, 1, 1, 1]);
    let b = WlMessage::new(2, 1, &[]);
    let c = WlMessage::new(1, 1, &[3, 3, 3, 3, 3, 3, 3, 3]);
    let mut buf = a.to_bytes();
    buf.extend_from_slice(&b.to_bytes());
    buf.extend_from_slice(&c.to_bytes());
    let mut it = WlMessageIter::new(buf);
    assert_eq!(it.next(), Some(a));
    assert_eq!(it.next(), Some(b));
    assert_eq!(it.next(), Some(c));
    assert_eq!(it.next(), None);
    assert_eq!(it.remaining(), &[] as &[u8]);
}

#[test]
fn iter_takes_exactly_the_declared_length() {
    let m = WlMessage::new(2, 0, &[1, 2, 3, 4]);
    let mut buf = m.to_bytes();
    buf.extend_from_slice(&[9, 9, 9]);
    let mut it = WlMessageIter::new(buf);
    assert_eq!(it.next(), Some(m));
    assert_eq!(it.remaining(), &[9, 9, 9]);
    assert_eq!(it.next(), None);
    assert_eq!(it.remaining(), &[9, 9, 9]);
}

#[test]
fn iter_byte_by_byte_yields_one_message_at_the_end() {
    let m = WlMessage::new(2, 0, &[10, 20, 30, 40, 50, 60, 70, 80]);
    let wire = m.to_bytes();
    let mut it = WlMessageIter::new(Vec::new());
    for (i, byte) in wire.iter().enumerate() {
        assert_eq!(it.next(), None);
        assert_eq!(it.remaining(), &wire[..i]);
        it.extend(&[*byte]);
    }
    assert_eq!(it.next(), Some(m));
    assert_eq!(it.next(), None);
    assert_eq!(it.remaining(), &[] as &[u8]);
}

#[test]
fn iter_keeps_a_partial_header() {
    let mut it = WlMessageIter::new(vec![1, 2, 3]);
    assert_eq!(it.next(), None);
    assert_eq!(it.remaining(), &[1, 2, 3]);
    assert!(!it.is_malformed());
}

#[test]
fn iter_keeps_a_partial_payload() {
    let wire = WlMessage::new(2, 0, &[1, 2, 3, 4]).to_bytes();
    let mut it = WlMessageIter::new(wire[..10].to_vec());
    assert_eq!(it.next(), None);
    assert_eq!(it.remaining(), &wire[..10]);
    assert!(!it.is_malformed());
    it.extend(&wire[10..]);
    assert_eq!(it.next(), Some(WlMessage::new(2, 0, &[1, 2, 3, 4])));
}

#[test]
fn iter_reports_a_header_that_declares_too_little() {
    let mut buf = header_bytes(1, 0, 7);
    buf.extend_from_slice(&[0; 4]);
    let mut it = WlMessageIter::new(buf.clone());
    assert!(it.is_malformed());
    assert_eq!(it.next(), None);
    assert_eq!(it.remaining(), buf.as_slice());
}

#[test]
fn iter_on_empty_buffer() {
    let mut it = WlMessageIter::new(Vec::new());
    assert_eq!(it.next(), None);
    assert!(!it.is_malformed());
}
