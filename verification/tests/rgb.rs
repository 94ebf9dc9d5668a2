use led::pin::{Level, OutputPin};
use led::rgb::{Color, CommonAnodeLed, CommonCathodeLed, Levels, Rgb};
use led::{Led, RGB};

const LOW: Level = Level::Low;
const HIGH: Level = Level::High;

fn table() -> [(Color, bool, bool, bool); 8] {
    [
        (Color::Red, true, false, false),
        (Color::Green, false, true, false),
        (Color::Blue, false, false, true),
        (Color::Yellow, true, true, false),
        (Color::Cyan, false, true, true),
        (Color::Magenta, true, false, true),
        (Color::White, true, true, true),
        (Color::Black, false, false, false),
    ]
}

fn level(high: bool) -> Level {
    if high {
        HIGH
    } else {
        LOW
    }
}

fn show<L: Rgb>(led: &mut L, color: Color) {
    led.set(color);
}

#[test]
fn rgb_keeps_the_pins_it_was_made_with() {
    let led = RGB::new(OutputPin::new(LOW), OutputPin::new(HIGH), OutputPin::new(LOW));
    assert_eq!(led.levels(), Levels { red: LOW, green: HIGH, blue: LOW });
    let led = CommonCathodeLed::new(OutputPin::new(HIGH), OutputPin::new(LOW), OutputPin::new(HIGH));
    assert_eq!(led.levels(), Levels { red: HIGH, green: LOW, blue: HIGH });
}

#[test]
fn rgb_pulls_the_pins_of_the_color_low() {
    for start in [LOW, HIGH] {
        for (color, red, green, blue) in table() {
            let mut led = RGB::new(OutputPin::new(start), OutputPin::new(start), OutputPin::new(start));
            led.set_color(color);
            assert_eq!(
                led.levels(),
                Levels { red: level(!red), green: level(!green), blue: level(!blue) }
            );
        }
    }
}

#[test]
fn rgb_red_and_black() {
    let mut led = RGB::new(OutputPin::new(HIGH), OutputPin::new(LOW), OutputPin::new(LOW));
    led.set_color(Color::Red);
    assert_eq!(led.levels(), Levels { red: LOW, green: HIGH, blue: HIGH });
    led.set_color(Color::Black);
    assert_eq!(led.levels(), Levels { red: HIGH, green: HIGH, blue: HIGH });
    led.set_color(Color::White);
    assert_eq!(led.levels(), Levels { red: LOW, green: LOW, blue: LOW });
}

#[test]
fn common_anode_led_pulls_the_pins_of_the_color_low() {
    for (color, red, green, blue) in table() {
        let mut led = CommonAnodeLed::new(OutputPin::new(LOW), OutputPin::new(HIGH), OutputPin::new(LOW));
        led.set(color);
        assert_eq!(
            led.levels(),
            Levels { red: level(!red), green: level(!green), blue: level(!blue) }
        );
    }
}

#[test]
fn common_cathode_led_pulls_the_pins_of_the_color_high() {
    for (color, red, green, blue) in table() {
        let mut led = CommonCathodeLed::new(OutputPin::new(HIGH), OutputPin::new(LOW), OutputPin::new(HIGH));
        led.set(color);
        assert_eq!(led.levels(), Levels { red: level(red), green: level(green), blue: level(blue) });
    }
}

#[test]
fn both_polarities_are_rgb_leds() {
    let mut anode = CommonAnodeLed::new(OutputPin::new(HIGH), OutputPin::new(HIGH), OutputPin::new(HIGH));
    let mut cathode = CommonCathodeLed::new(OutputPin::new(HIGH), OutputPin::new(HIGH), OutputPin::new(HIGH));
    show(&mut anode, Color::Green);
    show(&mut cathode, Color::Green);
    assert_eq!(anode.levels(), Levels { red: HIGH, green: LOW, blue: HIGH });
    assert_eq!(cathode.levels(), Levels { red: LOW, green: HIGH, blue: LOW });
}

#[test]
fn rgb_is_a_common_anode_led() {
    for (color, _, _, _) in table() {
        let mut fixed = RGB::new(OutputPin::new(LOW), OutputPin::new(LOW), OutputPin::new(LOW));
        let mut anode = CommonAnodeLed::new(OutputPin::new(LOW), OutputPin::new(LOW), OutputPin::new(LOW));
        fixed.set_color(color);
        anode.set(color);
        assert_eq!(fixed.levels(), anode.levels());
    }
}
