use control_sync::bridge::{deliver, InteractionFlags, ACTIVE, PRELIGHT};

#[test]
fn engaged_means_pressed() {
    assert!(!InteractionFlags::none().is_engaged());
    assert!(InteractionFlags::from_bits(ACTIVE).is_engaged());
    assert!(!InteractionFlags::from_bits(PRELIGHT).is_engaged());
    assert!(InteractionFlags::from_bits(ACTIVE | PRELIGHT).is_engaged());
}

#[test]
fn other_state_bits_do_not_matter() {
    assert!(InteractionFlags::from_bits(0b1000_0111).is_engaged());
    assert!(!InteractionFlags::from_bits(0b1111_1100).is_engaged());
    assert!(InteractionFlags::from_bits(0b1111_1101).is_engaged());
    assert!(!InteractionFlags::from_bits(0b1111_1110).is_engaged());
}

#[test]
fn contains_tests_every_bit_of_the_mask() {
    let flags = InteractionFlags::from_bits(0b0110);
    assert!(flags.contains(0b0100));
    assert!(flags.contains(0b0110));
    assert!(!flags.contains(0b0111));
    assert!(flags.contains(0));
    assert_eq!(flags.bits, 6);
}

#[test]
fn deliver_shows_value_when_free() {
    let mut shown = 10i32;
    assert!(deliver(&mut shown, InteractionFlags::none(), 25));
    assert_eq!(shown, 25);
}

#[test]
fn deliver_drops_value_while_pressed_without_hover() {
    let mut shown = 10i32;
    assert!(!deliver(&mut shown, InteractionFlags::from_bits(ACTIVE), 25));
    assert_eq!(shown, 10);
}

#[test]
fn deliver_drops_value_while_engaged() {
    let mut shown = 10i32;
    let held = InteractionFlags::from_bits(ACTIVE | PRELIGHT);
    assert!(!deliver(&mut shown, held, 25));
    assert_eq!(shown, 10);
    assert!(deliver(&mut shown, InteractionFlags::from_bits(PRELIGHT), 30));
    assert_eq!(shown, 30);
}
