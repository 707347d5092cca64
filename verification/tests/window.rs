use rmgba::window::{frame_texture_bytes, FRAME_STRIDE, GBA_HEIGHT, GBA_PIXELS, GBA_WIDTH};

#[test]
fn frame_dimensions() {
    assert_eq!(GBA_WIDTH, 240);
    assert_eq!(GBA_HEIGHT, 160);
    assert_eq!(GBA_PIXELS, GBA_WIDTH * GBA_HEIGHT);
    assert_eq!(FRAME_STRIDE, GBA_WIDTH * 4);
}

#[test]
fn partial_frames_are_dropped() {
    assert!(frame_texture_bytes(&vec![0u32; 10]).is_none());
    assert!(frame_texture_bytes(&vec![0u32; GBA_PIXELS - 1]).is_none());
    assert!(frame_texture_bytes(&vec![0u32; GBA_PIXELS + 1]).is_none());
    assert!(frame_texture_bytes(&Vec::new()).is_none());
}

#[test]
fn pixels_become_bgra_bytes() {
    let mut pixels = vec![0u32; GBA_PIXELS];
    pixels[0] = 0xFF112233;
    pixels[1] = 0x00FF8040;
    pixels[GBA_PIXELS - 1] = 0x01020304;
    let bytes = frame_texture_bytes(&pixels).unwrap();
    assert_eq!(bytes.len(), 4 * GBA_PIXELS);
    assert_eq!(&bytes[0..4], &[0x33, 0x22, 0x11, 0xFF]);
    assert_eq!(&bytes[4..8], &[0x40, 0x80, 0xFF, 0x00]);
    assert_eq!(&bytes[4 * GBA_PIXELS - 4..], &[0x04, 0x03, 0x02, 0x01]);
    for (i, p) in pixels.iter().enumerate() {
        assert_eq!(bytes[4 * i..4 * i + 4], p.to_le_bytes());
    }
}
