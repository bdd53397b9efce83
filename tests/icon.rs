use librepods_ui::{icon_from_rgba, pixel_in_ring, ring_gauge_rgba, text_origin, transparent_icon, ICON_BYTES, ICON_PIXELS};

#[test]
fn ring_membership() {
    assert!(!pixel_in_ring(32, 32));
    assert!(!pixel_in_ring(32, 10));
    assert!(pixel_in_ring(32, 9));
    assert!(pixel_in_ring(32, 4));
    assert!(!pixel_in_ring(32, 3));
    assert!(!pixel_in_ring(0, 0));
}

#[test]
fn empty_gauge_fills_nothing() {
    let rgba = ring_gauge_rgba(&vec![false; ICON_PIXELS]);
    assert_eq!(rgba.len(), ICON_BYTES);
    let i = 4 * (9 * 64 + 32);
    assert_eq!(&rgba[i..i + 4], &[128, 128, 128, 255]);
    assert_eq!(&rgba[0..4], &[0, 0, 0, 0]);
    assert!(rgba.chunks(4).all(|p| p != [0, 255, 0, 255]));
}

#[test]
fn full_gauge_fills_ring() {
    let rgba = ring_gauge_rgba(&vec![true; ICON_PIXELS]);
    let mut ring = 0;
    for (i, p) in rgba.chunks(4).enumerate() {
        if pixel_in_ring((i % 64) as u32, (i / 64) as u32) {
            assert_eq!(p, [0, 255, 0, 255]);
            ring += 1;
        } else {
            assert_eq!(p, [0, 0, 0, 0]);
        }
    }
    assert!(ring > 0);
}

#[test]
fn argb_byte_order() {
    let mut rgba = vec![0u8; ICON_BYTES];
    rgba[0] = 1;
    rgba[1] = 2;
    rgba[2] = 3;
    rgba[3] = 4;
    let icon = icon_from_rgba(&rgba);
    assert_eq!(icon.width, 64);
    assert_eq!(icon.height, 64);
    assert_eq!(&icon.data[0..4], &[4, 1, 2, 3]);
    assert_eq!(icon.data.len(), ICON_BYTES);
}

#[test]
fn transparent_when_no_font() {
    let icon = transparent_icon();
    assert_eq!(icon.data.len(), 64 * 64 * 4);
    assert!(icon.data.iter().all(|b| *b == 0));
}

#[test]
fn text_is_centred() {
    // 40 px of text leaves 12 px on each side.
    assert_eq!(text_origin(40 * 64), (12, 8));
    // 41 px leaves 11.5 px, rounded down.
    assert_eq!(text_origin(41 * 64), (11, 8));
    assert_eq!(text_origin(0), (32, 8));
    assert_eq!(text_origin(70 * 64), (0, 8));
}
