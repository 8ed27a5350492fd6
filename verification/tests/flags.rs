use emu8080::flags::{
    assign_bit, bit_is_set, sanitize, AUX_BIT, CARRY_BIT, INITIAL_FLAGS, PARITY_BIT, SIGN_BIT,
    ZERO_BIT,
};

#[test]
fn sanitize_keeps_condition_bits_and_forces_fixed_bits() {
    assert_eq!(sanitize(0x00), 0x02);
    assert_eq!(sanitize(0xFF), 0xD7);
    assert_eq!(sanitize(0x28), 0x02);
    assert_eq!(sanitize(0xD5), 0xD7);
    for b in 0..=255u8 {
        let f = sanitize(b);
        assert_eq!(f & 0x2A, 0x02);
        assert_eq!(f & 0xD5, b & 0xD5);
        assert_eq!(sanitize(f), f);
    }
}

#[test]
fn assign_bit_changes_one_condition() {
    let masks = [SIGN_BIT, ZERO_BIT, AUX_BIT, PARITY_BIT, CARRY_BIT];
    for f in [INITIAL_FLAGS, 0xD7, 0x46, 0x93] {
        for mask in masks {
            let set = assign_bit(f, mask, true);
            let cleared = assign_bit(f, mask, false);
            assert_eq!(set, f | mask);
            assert_eq!(cleared, f & !mask);
            assert!(bit_is_set(set, mask));
            assert!(!bit_is_set(cleared, mask));
            for other in masks {
                if other != mask {
                    assert_eq!(bit_is_set(set, other), bit_is_set(f, other));
                    assert_eq!(bit_is_set(cleared, other), bit_is_set(f, other));
                }
            }
        }
    }
}

#[test]
fn flag_masks() {
    assert_eq!(SIGN_BIT, 0b1000_0000);
    assert_eq!(ZERO_BIT, 0b0100_0000);
    assert_eq!(AUX_BIT, 0b0001_0000);
    assert_eq!(PARITY_BIT, 0b0000_0100);
    assert_eq!(CARRY_BIT, 0b0000_0001);
    assert_eq!(INITIAL_FLAGS, 0b0000_0010);
}
