use git_single_object_fetch::packet_line::{lossy_text, Frame, PacketLine};

#[test]
fn band_one_is_data() {
    let line = PacketLine::Data(vec![1, b'P', b'A', b'C', b'K']);
    assert_eq!(line.decode_band(), Ok(Frame::Data(b"PACK".to_vec())));
}

#[test]
fn band_two_is_progress() {
    let line = PacketLine::Data(vec![2, b'5', b'0', b'%']);
    assert_eq!(line.decode_band(), Ok(Frame::Progress(b"50%".to_vec())));
}

#[test]
fn band_three_is_an_error() {
    let line = PacketLine::Data(vec![3, b'n', b'o']);
    assert_eq!(line.decode_band(), Ok(Frame::Error(b"no".to_vec())));
}

#[test]
fn a_band_byte_alone_carries_an_empty_payload() {
    assert_eq!(PacketLine::Data(vec![1]).decode_band(), Ok(Frame::Data(vec![])));
}

#[test]
fn other_band_bytes_are_refused() {
    assert!(PacketLine::Data(vec![0, 1, 2]).decode_band().is_err());
    assert!(PacketLine::Data(vec![4, 1, 2]).decode_band().is_err());
    assert!(PacketLine::Data(vec![b'P', b'A']).decode_band().is_err());
}

#[test]
fn an_empty_line_is_refused() {
    assert!(PacketLine::Data(vec![]).decode_band().is_err());
}

#[test]
fn marker_lines_are_refused() {
    assert!(PacketLine::Flush.decode_band().is_err());
    assert!(PacketLine::Delimiter.decode_band().is_err());
    assert!(PacketLine::ResponseEnd.decode_band().is_err());
}

#[test]
fn the_refusal_depends_on_the_line_alone() {
    let first = PacketLine::Data(vec![9, 9]).decode_band();
    let second = PacketLine::Data(vec![9, 9]).decode_band();
    assert!(first.is_err());
    assert_eq!(first, second);
}

#[test]
fn as_slice_gives_the_bytes_of_a_data_line_only() {
    let data = vec![1u8, 2, 3];
    assert_eq!(PacketLine::Data(data.clone()).as_slice(), Some(&data));
    assert_eq!(PacketLine::Flush.as_slice(), None);
    assert_eq!(PacketLine::Delimiter.as_slice(), None);
    assert_eq!(PacketLine::ResponseEnd.as_slice(), None);
}

#[test]
fn lossy_text_keeps_well_formed_text() {
    assert_eq!(lossy_text(&b"fatal: not found".to_vec()), "fatal: not found");
    assert_eq!(lossy_text(&"gr\u{fc}n".as_bytes().to_vec()), "gr\u{fc}n");
    assert_eq!(lossy_text(&vec![]), "");
}

#[test]
fn lossy_text_replaces_what_is_malformed() {
    assert_eq!(lossy_text(&vec![b'a', 0xff, b'b']), "a\u{fffd}b");
}
