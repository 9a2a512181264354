use zen_lib::gradient::{gradient_divisor, gradient_positions};
use zen_lib::sector::{sector_index, sector_slots, Slot};

#[test]
fn sector_index_wraps_full_turn() {
    assert_eq!(sector_index(0), 0);
    assert_eq!(sector_index(3), 3);
    assert_eq!(sector_index(5), 5);
    assert_eq!(sector_index(6), 0);
    assert_eq!(sector_index(13), 1);
    assert_eq!(sector_index(-1), 5);
    assert_eq!(sector_index(-6), 0);
    assert_eq!(sector_index(-7), 5);
    assert_eq!(sector_index(i64::MIN), (((i64::MIN % 6) + 6) % 6) as u8);
}

#[test]
fn sector_slots_follow_hexagon() {
    assert_eq!(sector_slots(0), (Slot::Value, Slot::Rising, Slot::Floor));
    assert_eq!(sector_slots(1), (Slot::Falling, Slot::Value, Slot::Floor));
    assert_eq!(sector_slots(2), (Slot::Floor, Slot::Value, Slot::Rising));
    assert_eq!(sector_slots(3), (Slot::Floor, Slot::Falling, Slot::Value));
    assert_eq!(sector_slots(4), (Slot::Rising, Slot::Floor, Slot::Value));
    assert_eq!(sector_slots(5), (Slot::Value, Slot::Floor, Slot::Falling));
}

#[test]
fn empty_gradient_has_no_patches_and_unit_divisor() {
    assert_eq!(gradient_divisor(0), 1);
    assert!(gradient_positions(0).is_empty());
}

#[test]
fn gradient_positions_are_even_and_exclude_the_end() {
    assert_eq!(gradient_divisor(4), 4);
    assert_eq!(gradient_positions(4), vec![(0, 4), (1, 4), (2, 4), (3, 4)]);
    assert_eq!(gradient_positions(1), vec![(0, 1)]);
    let many = gradient_positions(u16::MAX);
    assert_eq!(many.len(), u16::MAX as usize);
    assert_eq!(many[0], (0, u16::MAX));
    assert_eq!(many[many.len() - 1], (u16::MAX - 1, u16::MAX));
}
