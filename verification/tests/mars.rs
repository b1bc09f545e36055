use blue_avocado::mars::{ConstructionError, Mars};
use blue_avocado::sbox::{s, s0, s1};

#[test]
fn s_box_0() {
    assert_eq!(0x84aa6c39, s0(0x42424202));
}

#[test]
fn s_box_1() {
    assert_eq!(0x0f59573e, s1(0x4242420E));
}

#[test]
fn s_box() {
    assert_eq!(0x77b56b86, s(0x42424351));
}

#[test]
fn new_key_too_small() {
    assert_eq!(Some(ConstructionError), Mars::new(&[0u32; 3]).err());
}

#[test]
fn new_key_too_big() {
    assert_eq!(Some(ConstructionError), Mars::new(&[0u32; 15]).err());
}

#[test]
fn new_boundary_lengths() {
    assert!(Mars::new(&[0u32; 4]).is_ok());
    assert!(Mars::new(&[0u32; 14]).is_ok());
}

#[test]
fn new() {
    let instance = Mars::new(&[42u32; 7]).unwrap();
    assert_ne!(0u32, instance.schedule_word(0));
    assert_ne!(42u32, instance.schedule_word(0));
}

#[test]
fn compute_key_mask() {
    assert_eq!(
        0b01111111111111111111111111111000,
        Mars::compute_key_mask(0b00000000000000000000000000000011)
    );

    assert_eq!(
        0b01111111111000111111110000000000,
        Mars::compute_key_mask(0b00000000000010000000000111111111)
    );
}

#[test]
fn mars_encrypt_and_decrypt() {
    let instance = Mars::new(&[42u32; 14]).unwrap();
    let (e1, e2, e3, e4) = instance.encrypt(2, 4, 24, 42);
    let (d1, d2, d3, d4) = instance.decrypt(e1, e2, e3, e4);

    assert_eq!(2, d1);
    assert_eq!(4, d2);
    assert_eq!(24, d3);
    assert_eq!(42, d4);
}

#[test]
fn mars_round_trip_short_key() {
    let instance = Mars::new(&[1u32, 2, 3, 4]).unwrap();
    let (e1, e2, e3, e4) = instance.encrypt(0xdeadbeef, 0, 0xffffffff, 7);
    let (d1, d2, d3, d4) = instance.decrypt(e1, e2, e3, e4);

    assert_eq!(0xdeadbeef, d1);
    assert_eq!(0, d2);
    assert_eq!(0xffffffff, d3);
    assert_eq!(7, d4);
}

#[test]
fn encrypt_changes_block() {
    let instance = Mars::new(&[42u32; 7]).unwrap();
    let (e1, e2, e3, e4) = instance.encrypt(2, 4, 24, 42);
    assert_ne!((2, 4, 24, 42), (e1, e2, e3, e4));
}

#[test]
fn compute_key_mask_no_long_run() {
    // Alternating bits have no run of two equal bits, let alone ten.
    assert_eq!(0, Mars::compute_key_mask(0xaaaaaaaa));
}
