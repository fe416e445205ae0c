use hexchain::{char_pattern, Display, DisplayData, NibbleSplit, CHAIN_LENGTH, DATA_LENGTH, SEG_DP};

fn fresh() -> Display<NibbleSplit> {
    Display::new(NibbleSplit)
}

#[test]
fn new_display_is_blank() {
    let mut d = fresh();
    assert_eq!(d.on_states(), [false; CHAIN_LENGTH]);
    assert_eq!(d.decimal_points(), [0; CHAIN_LENGTH]);
    assert_eq!(d.values(), [0; DATA_LENGTH]);
    assert_eq!(d.bits(), [0; CHAIN_LENGTH]);
    assert_eq!(d.show(), [0; CHAIN_LENGTH]);
}

#[test]
fn all_on_and_all_off() {
    let mut d = fresh();
    d.set(DisplayData::AllOn);
    assert_eq!(d.on_states(), [true; CHAIN_LENGTH]);
    assert_eq!(d.show(), [char_pattern(0); CHAIN_LENGTH]);
    d.set(DisplayData::AllOff);
    assert_eq!(d.on_states(), [false; CHAIN_LENGTH]);
    assert_eq!(d.show(), [0; CHAIN_LENGTH]);
}

#[test]
fn updates_touch_only_their_array() {
    let mut d = fresh();
    let mut mask = [false; CHAIN_LENGTH];
    mask[3] = true;
    let mut bytes = [0u8; DATA_LENGTH];
    bytes[1] = 0x9c;
    d.set(DisplayData::Values(&bytes));
    d.set(DisplayData::DecimalPoints(&mask));
    d.set(DisplayData::On(&mask));
    assert_eq!(d.values(), bytes);
    assert_eq!(d.on_states(), mask);
    let mut points = [0u8; CHAIN_LENGTH];
    points[3] = SEG_DP;
    assert_eq!(d.decimal_points(), points);
    d.set(DisplayData::AllOn);
    assert_eq!(d.values(), bytes);
    assert_eq!(d.decimal_points(), points);
}

#[test]
fn show_twice_gives_same_bitstream() {
    let mut d = fresh();
    let mut bytes = [0u8; DATA_LENGTH];
    for (i, b) in bytes.iter_mut().enumerate() {
        *b = (i as u8).wrapping_mul(37).wrapping_add(5);
    }
    let mut mask = [false; CHAIN_LENGTH];
    for (i, m) in mask.iter_mut().enumerate() {
        *m = i % 3 != 0;
    }
    d.set(DisplayData::Values(&bytes));
    d.set(DisplayData::On(&mask));
    d.set(DisplayData::DecimalPoints(&mask));
    let first = d.show();
    let second = d.show();
    assert_eq!(first, second);
    assert_eq!(d.bits(), first);
}

#[test]
fn decimal_points_without_digits() {
    let mut d = fresh();
    let mut bytes = [0u8; DATA_LENGTH];
    bytes[0] = 0x88;
    bytes[7] = 0x3e;
    d.set(DisplayData::Values(&bytes));
    d.set(DisplayData::DecimalPoints(&[true; CHAIN_LENGTH]));
    d.set(DisplayData::On(&[false; CHAIN_LENGTH]));
    assert_eq!(d.show(), [SEG_DP; CHAIN_LENGTH]);
}

#[test]
fn on_mask_replaces_previous_mask() {
    let mut d = fresh();
    let mut first = [false; CHAIN_LENGTH];
    first[0] = true;
    first[5] = true;
    let mut second = [false; CHAIN_LENGTH];
    second[1] = true;
    second[5] = true;
    d.set(DisplayData::On(&first));
    d.set(DisplayData::On(&second));
    assert_eq!(d.on_states(), second);
}

#[test]
fn values_then_all_on_renders_digits() {
    let mut d = fresh();
    let mut bytes = [0u8; DATA_LENGTH];
    bytes[0] = 0x01;
    d.set(DisplayData::Values(&bytes));
    d.set(DisplayData::AllOn);
    let bits = d.show();
    assert_eq!(bits[0], char_pattern(1));
    assert_eq!(bits[1], char_pattern(0));
    assert_eq!(bits[0], 0x06);
    assert_eq!(bits[1], 0x3f);
    for b in bits.iter() {
        assert_eq!(b & SEG_DP, 0);
    }
}

#[test]
fn single_decimal_point() {
    let mut d = fresh();
    let mut mask = [false; CHAIN_LENGTH];
    mask[0] = true;
    d.set(DisplayData::AllOff);
    d.set(DisplayData::DecimalPoints(&mask));
    let bits = d.show();
    let mut expected = [0u8; CHAIN_LENGTH];
    expected[0] = SEG_DP;
    assert_eq!(bits, expected);
}

#[test]
fn digit_order_low_nibble_first() {
    let mut d = fresh();
    let mut bytes = [0u8; DATA_LENGTH];
    bytes[0] = 0xa5;
    bytes[DATA_LENGTH - 1] = 0x3c;
    let mut mask = [true; CHAIN_LENGTH];
    mask[2] = false;
    let mut points = [false; CHAIN_LENGTH];
    points[1] = true;
    points[2] = true;
    d.set(DisplayData::Values(&bytes));
    d.set(DisplayData::On(&mask));
    d.set(DisplayData::DecimalPoints(&points));
    let bits = d.show();
    assert_eq!(bits[0], 0x6d);
    assert_eq!(bits[1], 0x77 | 0x80);
    assert_eq!(bits[2], 0x80);
    assert_eq!(bits[3], 0x3f);
    assert_eq!(bits[CHAIN_LENGTH - 2], 0x39);
    assert_eq!(bits[CHAIN_LENGTH - 1], 0x4f);
}
