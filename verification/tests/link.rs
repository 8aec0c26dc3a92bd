use oled::link::msb_first_levels;

#[test]
fn bits_come_out_most_significant_first() {
    assert_eq!(msb_first_levels(0xA5), vec![true, false, true, false, false, true, false, true]);
    assert_eq!(
        msb_first_levels(0x80),
        vec![true, false, false, false, false, false, false, false]
    );
    assert_eq!(
        msb_first_levels(0x01),
        vec![false, false, false, false, false, false, false, true]
    );
    assert_eq!(msb_first_levels(0x00), vec![false; 8]);
    assert_eq!(msb_first_levels(0xFF), vec![true; 8]);
}
