use supershuckie::input::{gba_decode_input, gba_encode_input, nds_decode_input, nds_encode_input, Input};

fn pressed_a_and_start() -> Input {
    let mut i = Input::new();
    i.a = true;
    i.start = true;
    i
}

#[test]
fn empty_input_is_empty() {
    assert!(Input::new().is_empty());
    assert!(Input::default().is_empty());
    let mut i = Input::new();
    i.touch = Some((1, 2));
    assert!(!i.is_empty());
}

#[test]
fn merge_ors_buttons_and_keeps_first_touch() {
    let mut a = Input::new();
    a.a = true;
    a.touch = Some((3, 4));
    let mut b = Input::new();
    b.b = true;
    b.touch = Some((9, 9));
    let m = a.merge(b);
    assert!(m.a && m.b);
    assert!(!m.x);
    assert_eq!(m.touch, Some((3, 4)));
    let m2 = Input::new().merge(b);
    assert_eq!(m2.touch, Some((9, 9)));
}

#[test]
fn nds_encoding_of_buttons() {
    let mut v = vec![7u8, 7, 7, 7, 7, 7];
    nds_encode_input(pressed_a_and_start(), &mut v);
    // A is bit 0, Start is bit 3.
    assert_eq!(v, vec![0x09, 0, 0, 0]);
    assert_eq!(nds_decode_input(&v), 0x9);
}

#[test]
fn nds_encoding_of_touch() {
    let mut i = Input::new();
    i.touch = Some((0x12, 0x34));
    i.y = true;
    let mut v = Vec::new();
    nds_encode_input(i, &mut v);
    // Y is bit 11, the touch flag bit 12, x in bits 16..24, y in bits 24..32.
    assert_eq!(v, vec![0x00, 0x18, 0x12, 0x34]);
    assert_eq!(nds_decode_input(&v), 0x3412_1800);
}

#[test]
fn nds_decode_wrong_length_is_zero() {
    assert_eq!(nds_decode_input(&[1, 2, 3]), 0);
    assert_eq!(nds_decode_input(&[]), 0);
}

#[test]
fn gba_encoding_drops_x_y_and_touch() {
    let mut i = pressed_a_and_start();
    i.x = true;
    i.y = true;
    i.touch = Some((1, 1));
    i.r = true;
    let mut v = vec![1, 2, 3];
    gba_encode_input(i, &mut v);
    // A bit 0, Start bit 3, R bit 8.
    assert_eq!(v, vec![0x09, 0x01]);
    assert_eq!(gba_decode_input(&v), 0x0109);
    assert_eq!(gba_decode_input(&[1]), 0);
}

#[test]
fn encoding_roundtrips_through_decoding() {
    let mut i = Input::new();
    i.d_left = true;
    i.d_down = true;
    i.select = true;
    i.l = true;
    let mut v = Vec::new();
    nds_encode_input(i, &mut v);
    let w = nds_decode_input(&v);
    assert_eq!(w, (1 << 5) | (1 << 7) | (1 << 2) | (1 << 9));
    gba_encode_input(i, &mut v);
    assert_eq!(gba_decode_input(&v) as u32, w);
}
