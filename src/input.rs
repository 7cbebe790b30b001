//! Which button a reading of an analog button line stands for.
//!
//! Several buttons share one line through a resistor ladder, so each button
//! gives a reading in its own band. A table of band edges, from the highest
//! down and ending with zero, separates them.
use vstd::prelude::*;

verus! {

/// Band edges of the first button line, between its recorded readings
/// 3087, 2629, 2013, 1117 and 4.
pub const PIN_1_RANGES: [u16; 5] = [2850, 2300, 1550, 550, 0];

/// Band edges of the second button line, between its recorded readings
/// 3087, 1670 and 4.
pub const PIN_2_RANGES: [u16; 3] = [2350, 850, 0];

/// The analog button lines.
#[derive(Clone, Copy, Debug, PartialEq, Eq, Structural)]
pub enum Pin {
    /// The line with four buttons.
    One,
    /// The line with two buttons.
    Two,
}

/// Number of buttons on a line.
pub open spec fn button_count(pin: Pin) -> int {
    match pin {
        Pin::One => 4,
        Pin::Two => 2,
    }
}

/// Whether `value` lies in the band of button `b`: above the next edge, up to
/// and including its own.
pub open spec fn in_band(value: u16, ranges: Seq<u16>, b: int) -> bool {
    ranges[b + 1] < value <= ranges[b]
}

/// The button whose band holds `pin_value`, the first such when bands
/// overlap, or `None` when no band holds it.
pub fn get_active_button(pin_value: u16, ranges: &[u16], pin: Pin) -> (r: Option<u8>)
    requires
        ranges@.len() > button_count(pin),
    ensures
        r matches Some(b) ==> b < button_count(pin) && in_band(pin_value, ranges@, b as int)
            && forall|k: int| 0 <= k < b ==> !in_band(pin_value, ranges@, k),
        r is None ==> forall|k: int| 0 <= k < button_count(pin) ==> !in_band(pin_value, ranges@, k),
{
    let number_of_buttons: u8 = match pin {
        Pin::One => 4,
        Pin::Two => 2,
    };
    let mut button_number: u8 = 0;
    while button_number < number_of_buttons
        invariant
            button_number <= number_of_buttons,
            number_of_buttons as int == button_count(pin),
            ranges@.len() > button_count(pin),
            forall|k: int| 0 <= k < button_number ==> !in_band(pin_value, ranges@, k),
        decreases number_of_buttons - button_number,
    {
        let start = ranges[button_number as usize + 1];
        let end = ranges[button_number as usize];
        if start < pin_value && pin_value <= end {
            return Some(button_number);
        }
        button_number = button_number + 1;
    }
    None
}

} // verus!
