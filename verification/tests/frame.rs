use canbusnoop::frame::Frame;

#[test]
fn frame_keeps_identifier_and_payload() {
    let frame = Frame::new(0x18FEF100, vec![1, 2, 3]);
    assert_eq!(frame.id(), 0x18FEF100);
    assert_eq!(frame.data(), &[1u8, 2, 3][..]);
}
