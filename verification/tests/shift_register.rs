use emu8080::shift_register::ShiftRegister;

#[test]
fn test1() {
    let mut sr = ShiftRegister::new();
    sr.insert(0xab);
    assert_eq!(sr.result(), 0xab);
    sr.insert(0xcd);
    assert_eq!(sr.result(), 0xcd);
    sr.write_offset(4);
    assert_eq!(sr.result(), 0xda);
}

#[test]
fn new_register_reads_zero() {
    let sr = ShiftRegister::new();
    assert_eq!(sr.result(), 0);
}

#[test]
fn window_moves_down_with_the_offset() {
    let mut sr = ShiftRegister::new();
    sr.insert(0xab);
    sr.insert(0xcd);
    let expected = [0xcdu8, 0x9b, 0x36, 0x6d, 0xda, 0xb5, 0x6a, 0xd5];
    for offset in 0..8u8 {
        sr.write_offset(offset);
        assert_eq!(sr.result(), expected[offset as usize]);
    }
}

#[test]
fn offset_eight_shows_the_byte_before() {
    let mut sr = ShiftRegister::new();
    sr.insert(0xab);
    sr.insert(0xcd);
    sr.write_offset(8);
    assert_eq!(sr.result(), 0xab);
    sr.write_offset(0);
    assert_eq!(sr.result(), 0xcd);
}

#[test]
fn insert_keeps_the_two_last_bytes() {
    let mut sr = ShiftRegister::new();
    sr.insert(0x11);
    sr.insert(0x22);
    sr.insert(0x33);
    assert_eq!(sr.result(), 0x33);
    sr.write_offset(7);
    assert_eq!(sr.result(), ((0x3322u16 >> 1) & 0xFF) as u8);
}
