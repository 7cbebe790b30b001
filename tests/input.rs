use eink_display::input::{get_active_button, Pin, PIN_1_RANGES, PIN_2_RANGES};

#[test]
fn first_line_buttons_by_recorded_readings() {
    assert_eq!(get_active_button(3087, &PIN_1_RANGES, Pin::One), None);
    assert_eq!(get_active_button(2629, &PIN_1_RANGES, Pin::One), Some(0));
    assert_eq!(get_active_button(2013, &PIN_1_RANGES, Pin::One), Some(1));
    assert_eq!(get_active_button(1117, &PIN_1_RANGES, Pin::One), Some(2));
    assert_eq!(get_active_button(4, &PIN_1_RANGES, Pin::One), Some(3));
    assert_eq!(get_active_button(0, &PIN_1_RANGES, Pin::One), None);
}

#[test]
fn band_edges_belong_to_the_band_below_them() {
    assert_eq!(get_active_button(2850, &PIN_1_RANGES, Pin::One), Some(0));
    assert_eq!(get_active_button(2851, &PIN_1_RANGES, Pin::One), None);
    assert_eq!(get_active_button(2300, &PIN_1_RANGES, Pin::One), Some(1));
    assert_eq!(get_active_button(2301, &PIN_1_RANGES, Pin::One), Some(0));
}

#[test]
fn second_line_buttons_by_recorded_readings() {
    assert_eq!(get_active_button(3087, &PIN_2_RANGES, Pin::Two), None);
    assert_eq!(get_active_button(1670, &PIN_2_RANGES, Pin::Two), Some(0));
    assert_eq!(get_active_button(4, &PIN_2_RANGES, Pin::Two), Some(1));
}
