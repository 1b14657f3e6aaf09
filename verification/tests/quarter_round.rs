use chacha20::chacha::qr;

#[test]
fn test_qr_known_values() {
    // Test with known values
    let mut a = 0x1111_1111;
    let mut b = 0x2222_2222;
    let mut c = 0x3333_3333;
    let mut d = 0x4444_4444;

    qr(&mut a, &mut b, &mut c, &mut d);

    // Expected values after one round of QR (pre-calculated):
    assert_eq!(a, 0xbbbbbbbb);
    assert_eq!(b, 0xffffff7f);
    assert_eq!(c, 0x77777776);
    assert_eq!(d, 0xcccccccc);
}

#[test]
fn test_qr_nulls() {
    // QR with zeros (does not alter basic structure)
    let mut a = 0;
    let mut b = 0;
    let mut c = 0;
    let mut d = 0;

    qr(&mut a, &mut b, &mut c, &mut d);

    assert_eq!(a, 0);
    assert_eq!(b, 0);
    assert_eq!(c, 0);
    assert_eq!(d, 0);
}

#[test]
fn test_qr_max_values() {
    // Test with high values (safe overflow with wrapping_add)
    let mut a = u32::MAX;
    let mut b = u32::MAX;
    let mut c = u32::MAX;
    let mut d = u32::MAX;

    qr(&mut a, &mut b, &mut c, &mut d);

    assert_eq!(a, 0xf0000ffd);
    assert_eq!(b, 0x88790878);
    assert_eq!(c, 0x0110fdef);
    assert_eq!(d, 0x010ffdf0);
}

#[test]
fn test_qr_random_values() {
    // Test with random values (pre-calculated)
    let mut a = 0x0000_1111;
    let mut b = 0x2222_0000;
    let mut c = 0x1111_0000;
    let mut d = 0x0000_2222;

    qr(&mut a, &mut b, &mut c, &mut d);

    assert_eq!(a, 0x84443777);
    assert_eq!(b, 0xBDA8DFEC);
    assert_eq!(c, 0xBB5977D9);
    assert_eq!(d, 0x771555B7);
}

fn quarter(a: u32, b: u32, c: u32, d: u32) -> (u32, u32, u32, u32) {
    let (mut a, mut b, mut c, mut d) = (a, b, c, d);
    qr(&mut a, &mut b, &mut c, &mut d);
    (a, b, c, d)
}

#[test]
fn qr_published_vector() {
    assert_eq!(
        quarter(0x11111111, 0x01020304, 0x9b8d6f43, 0x01234567),
        (0xea2a92f4, 0xcb1cf8ce, 0x4581472e, 0x5881c4bb)
    );
}

#[test]
fn qr_gives_the_same_output_for_the_same_input() {
    let inputs = [
        (0, 0, 0, 0),
        (1, 2, 3, 4),
        (0x1111_1111, 0x2222_2222, 0x3333_3333, 0x4444_4444),
        (u32::MAX, u32::MAX, u32::MAX, u32::MAX),
        (0xdead_beef, 0x0bad_f00d, 0xcafe_babe, 0x8bad_f00d),
    ];
    for (a, b, c, d) in inputs {
        assert_eq!(quarter(a, b, c, d), quarter(a, b, c, d));
    }
}

#[test]
fn qr_is_the_four_add_xor_rotate_steps() {
    let (a, b, c, d) = (0xdead_beefu32, 0x0bad_f00du32, 0xcafe_babeu32, 0x8bad_f00du32);

    let a1 = a.wrapping_add(b);
    let d1 = (d ^ a1).rotate_left(16);
    let c1 = c.wrapping_add(d1);
    let b1 = (b ^ c1).rotate_left(12);
    let a2 = a1.wrapping_add(b1);
    let d2 = (d1 ^ a2).rotate_left(8);
    let c2 = c1.wrapping_add(d2);
    let b2 = (b1 ^ c2).rotate_left(7);

    assert_eq!(quarter(a, b, c, d), (a2, b2, c2, d2));
}

#[test]
fn qr_additions_wrap() {
    // the first addition, 0xffffffff + 1, wraps to zero
    assert_eq!(quarter(u32::MAX, 1, 0, 0), (0x0000_1000, 0x0808_0000, 0x0010_0000, 0x0010_0000));
}
