use led::alphanumeric::font::{lookup, POINT};
use led::alphanumeric::{Character, LED};
use led::pin::OutputPinMatrix;
use led::Led;

fn expand(byte: u16) -> [bool; 8] {
    let mut rows = [false; 8];
    for (row, state) in rows.iter_mut().enumerate() {
        *state = (byte >> row) & 1 == 1;
    }
    rows
}

#[test]
fn new_display_leaves_the_matrix_alone() {
    let mut matrix: OutputPinMatrix<2, 8> = OutputPinMatrix::new();
    matrix.set_column(1, &[true; 8]).unwrap();
    let led = LED::new(matrix);
    assert_eq!(*led.pins(), matrix);
}

#[test]
fn capital_a_is_split_into_low_and_high_byte() {
    let mut led = LED::new(OutputPinMatrix::new());
    led.set(Character::try_from('A').unwrap());
    let glyph = lookup(b'A');
    assert_eq!(led.pins().column(0), Some(expand(glyph & 0x00FF)));
    assert_eq!(led.pins().column(1), Some(expand(glyph >> 8)));
    assert_eq!(
        led.pins().column(0),
        Some([false, false, false, false, false, false, false, true])
    );
    assert_eq!(
        led.pins().column(1),
        Some([false, true, true, true, false, true, true, true])
    );
}

#[test]
fn pointed_space_shows_the_decimal_point_alone() {
    let mut led = LED::new(OutputPinMatrix::new());
    led.set(Character::try_from(' ').unwrap().set_point());
    let glyph = lookup(b' ') | POINT;
    assert_eq!(glyph, 0x0001);
    assert_eq!(led.pins().column(0), Some(expand(glyph & 0x00FF)));
    assert_eq!(led.pins().column(1), Some(expand(glyph >> 8)));
    assert_eq!(
        led.pins().column(0),
        Some([true, false, false, false, false, false, false, false])
    );
    assert_eq!(led.pins().column(1), Some([false; 8]));
}

#[test]
fn every_character_is_shown_bit_for_bit() {
    let mut led = LED::new(OutputPinMatrix::new());
    for b in 0u8..=127 {
        for point in [false, true] {
            let plain = Character::try_from(b).unwrap();
            let c = if point { plain.set_point() } else { plain };
            led.set(c);
            let glyph = c.glyph();
            assert_eq!(led.pins().column(0), Some(expand(glyph & 0x00FF)));
            assert_eq!(led.pins().column(1), Some(expand(glyph >> 8)));
        }
    }
}

#[test]
fn a_new_character_replaces_the_old_one() {
    let mut led = LED::new(OutputPinMatrix::new());
    led.set(Character::try_from('8').unwrap().set_point());
    led.set(Character::try_from(' ').unwrap());
    assert_eq!(led.pins().column(0), Some([false; 8]));
    assert_eq!(led.pins().column(1), Some([false; 8]));
}
