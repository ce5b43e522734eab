use bytes::BytesMut;
use vehicle_control::framing::FrameDecoder;

#[test]
fn empty_buffer_has_no_frame() {
    let mut decoder = FrameDecoder {};
    let mut buf = BytesMut::new();
    assert!(decoder.decode(&mut buf).unwrap().is_none());
    assert_eq!(buf.len(), 0);
}

#[test]
fn incomplete_frame_stays_in_the_buffer() {
    let mut decoder = FrameDecoder {};
    let mut buf = BytesMut::from(&[3u8, 10, 11][..]);
    assert!(decoder.decode(&mut buf).unwrap().is_none());
    assert_eq!(&buf[..], &[3u8, 10, 11][..]);
    let mut buf = BytesMut::from(&[1u8][..]);
    assert!(decoder.decode(&mut buf).unwrap().is_none());
    assert_eq!(&buf[..], &[1u8][..]);
}

#[test]
fn complete_frame_leaves_the_buffer() {
    let mut decoder = FrameDecoder {};
    let mut buf = BytesMut::from(&[2u8, 10, 11, 5, 1, 2][..]);
    let frame = decoder.decode(&mut buf).unwrap().unwrap();
    assert_eq!(&frame[..], &[10u8, 11][..]);
    assert_eq!(&buf[..], &[5u8, 1, 2][..]);
    assert!(decoder.decode(&mut buf).unwrap().is_none());
    assert_eq!(&buf[..], &[5u8, 1, 2][..]);
}

#[test]
fn frames_come_out_in_order() {
    let mut decoder = FrameDecoder {};
    let mut buf = BytesMut::from(&[1u8, 7, 0, 3, 1, 2, 3][..]);
    assert_eq!(&decoder.decode(&mut buf).unwrap().unwrap()[..], &[7u8][..]);
    let empty = decoder.decode(&mut buf).unwrap().unwrap();
    assert_eq!(empty.len(), 0);
    assert_eq!(&decoder.decode(&mut buf).unwrap().unwrap()[..], &[1u8, 2, 3][..]);
    assert_eq!(buf.len(), 0);
    assert!(decoder.decode(&mut buf).unwrap().is_none());
}

#[test]
fn longest_frame() {
    let mut decoder = FrameDecoder {};
    let mut bytes = vec![255u8];
    bytes.extend((0..255).map(|i| i as u8));
    let mut buf = BytesMut::from(&bytes[..255]);
    assert!(decoder.decode(&mut buf).unwrap().is_none());
    let mut buf = BytesMut::from(&bytes[..]);
    let frame = decoder.decode(&mut buf).unwrap().unwrap();
    assert_eq!(&frame[..], &bytes[1..]);
    assert_eq!(buf.len(), 0);
}
