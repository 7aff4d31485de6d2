use proof_wire::abci_event::{AbciEventWriter, EventCoordinates};

#[test]
fn new_and_default_writers_start_empty() {
    assert!(AbciEventWriter::new().into_vec().is_empty());
    assert!(AbciEventWriter::default().into_vec().is_empty());
}

#[test]
fn tx_header_is_little_endian_count() {
    let mut w = AbciEventWriter::new();
    w.write_tx_header(0x0102);
    assert_eq!(w.into_vec(), vec![0x02, 0x01]);
}

#[test]
fn begin_event_frames_type_then_count() {
    let mut w = AbciEventWriter::new();
    w.begin_event("fill", 3);
    assert_eq!(w.into_vec(), vec![4, 0, b'f', b'i', b'l', b'l', 3, 0]);
}

#[test]
fn string_attribute_frames_key_and_value() {
    let mut w = AbciEventWriter::new();
    w.write_attr("k", "vv");
    assert_eq!(w.into_vec(), vec![1, 0, b'k', 2, 0, b'v', b'v']);
}

#[test]
fn u64_attribute_is_decimal() {
    let mut w = AbciEventWriter::new();
    w.write_attr_u64("n", 0);
    w.write_attr_u64("m", 1_234_567);
    w.write_attr_u64("x", u64::MAX);
    let mut expected = vec![1, 0, b'n', 1, 0, b'0', 1, 0, b'm', 7, 0];
    expected.extend_from_slice(b"1234567");
    expected.extend_from_slice(&[1, 0, b'x', 20, 0]);
    expected.extend_from_slice(b"18446744073709551615");
    assert_eq!(w.into_vec(), expected);
}

#[test]
fn hex_attribute_is_lower_case_two_digits_per_byte() {
    let mut w = AbciEventWriter::new();
    w.write_attr_hex("h", &[0xab, 0x01, 0x00, 0xff]);
    let mut expected = vec![1, 0, b'h', 8, 0];
    expected.extend_from_slice(b"ab0100ff");
    assert_eq!(w.into_vec(), expected);
}

#[test]
fn empty_hex_attribute_has_zero_length_value() {
    let mut w = AbciEventWriter::new();
    w.write_attr_hex("h", &[]);
    assert_eq!(w.into_vec(), vec![1, 0, b'h', 0, 0]);
}

#[test]
fn display_attribute_writes_the_rendered_text() {
    let mut a = AbciEventWriter::new();
    a.write_attr_display("pnl", &(-42_i64).to_string());
    let mut b = AbciEventWriter::new();
    b.write_attr("pnl", "-42");
    assert_eq!(a.into_vec(), b.into_vec());
}

#[test]
fn long_values_have_their_length_truncated_to_sixteen_bits() {
    let value = "a".repeat(65_536 + 3);
    let mut w = AbciEventWriter::new();
    w.write_attr("k", &value);
    let bytes = w.into_vec();
    assert_eq!(&bytes[..5], &[1, 0, b'k', 3, 0]);
    assert_eq!(bytes.len(), 5 + 65_539);
}

#[test]
fn writes_append_in_call_order() {
    let mut w = AbciEventWriter::new();
    w.write_tx_header(1);
    w.begin_event("e", 1);
    w.write_attr("a", "b");
    assert_eq!(w.into_vec(), vec![1, 0, 1, 0, b'e', 1, 0, 1, 0, b'a', 1, 0, b'b']);
}

#[test]
fn coordinates_render_as_colon_separated_key() {
    let c = EventCoordinates { block_height: 7, execution_ordinal: 12, event_ordinal: 3 };
    assert_eq!(c.to_string(), "7:12:3");
}

#[test]
fn coordinates_append_four_attributes() {
    let c = EventCoordinates { block_height: 7, execution_ordinal: 12, event_ordinal: 3 };
    let mut w = AbciEventWriter::new();
    c.write_attrs(&mut w);
    let mut expected = AbciEventWriter::new();
    expected.write_attr_u64("block_height", 7);
    expected.write_attr_u64("execution_ordinal", 12);
    expected.write_attr_u64("event_ordinal", 3);
    expected.write_attr("event_key", "7:12:3");
    assert_eq!(w.into_vec(), expected.into_vec());
}

#[test]
fn self_describing_frames_read_back() {
    // A reader takes the 2-byte length then that many bytes.
    let mut w = AbciEventWriter::new();
    w.write_attr("key", "value");
    let bytes = w.into_vec();
    let klen = u16::from_le_bytes([bytes[0], bytes[1]]) as usize;
    assert_eq!(&bytes[2..2 + klen], b"key");
    let rest = &bytes[2 + klen..];
    let vlen = u16::from_le_bytes([rest[0], rest[1]]) as usize;
    assert_eq!(&rest[2..2 + vlen], b"value");
    assert_eq!(rest.len(), 2 + vlen);
}

#[test]
fn a_transaction_scans_back_event_by_event() {
    let mut w = AbciEventWriter::new();
    w.write_tx_header(2);
    w.begin_event("first", 2);
    w.write_attr("a", "1");
    w.write_attr_u64("b", 22);
    w.begin_event("second", 1);
    w.write_attr_hex("c", &[0xff]);
    let bytes = w.into_vec();

    fn read(bytes: &[u8], pos: &mut usize) -> Vec<u8> {
        let n = u16::from_le_bytes([bytes[*pos], bytes[*pos + 1]]) as usize;
        let out = bytes[*pos + 2..*pos + 2 + n].to_vec();
        *pos += 2 + n;
        out
    }
    fn count(bytes: &[u8], pos: &mut usize) -> usize {
        let n = u16::from_le_bytes([bytes[*pos], bytes[*pos + 1]]) as usize;
        *pos += 2;
        n
    }
    let mut pos = 0;
    let mut events = Vec::new();
    for _ in 0..count(&bytes, &mut pos) {
        let ty = read(&bytes, &mut pos);
        let mut attrs = Vec::new();
        for _ in 0..count(&bytes, &mut pos) {
            let k = read(&bytes, &mut pos);
            let v = read(&bytes, &mut pos);
            attrs.push((k, v));
        }
        events.push((ty, attrs));
    }
    assert_eq!(pos, bytes.len());
    assert_eq!(
        events,
        vec![
            (
                b"first".to_vec(),
                vec![(b"a".to_vec(), b"1".to_vec()), (b"b".to_vec(), b"22".to_vec())]
            ),
            (b"second".to_vec(), vec![(b"c".to_vec(), b"ff".to_vec())]),
        ]
    );
}
