use gb_emulator::utils::{compose_bytes, is_set, reset_bit, set_bit};

#[test]
fn test_is_set() {
    let byte = 0b01110011;
    assert!(is_set(byte, 0));
    assert!(is_set(byte, 1));
    assert!(!is_set(byte, 2));
    assert!(is_set(byte, 6));
    assert!(!is_set(byte, 7));
}

#[test]
fn test_set_bit() {
    let byte = 0x00;
    assert_eq!(set_bit(byte, 0), 0x01);
    assert_eq!(set_bit(byte, 7), 0b10000000);
}

#[test]
fn test_reset_bit() {
    let byte = 0xFF;
    assert_eq!(reset_bit(byte, 0), 0xFE);
    assert_eq!(reset_bit(byte, 7), 0x7F);
}

#[test]
fn compose_bytes_high_then_low() {
    assert_eq!(compose_bytes(0x12, 0x34), 0x1234);
    assert_eq!(compose_bytes(0xFF, 0x00), 0xFF00);
    let [low, high] = 0xBEEFu16.to_le_bytes();
    assert_eq!(compose_bytes(high, low), 0xBEEF);
}

#[test]
fn set_and_reset_are_idempotent() {
    for b in [0x00u8, 0x5A, 0xFF] {
        for i in 0..8u8 {
            assert!(is_set(set_bit(b, i), i));
            assert!(!is_set(reset_bit(b, i), i));
            assert_eq!(set_bit(set_bit(b, i), i), set_bit(b, i));
            assert_eq!(reset_bit(reset_bit(b, i), i), reset_bit(b, i));
        }
    }
}
