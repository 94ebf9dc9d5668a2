use led::mono::{Common, CommonAnode, CommonAnodeLED, CommonCathode, CommonCathodeLED, Monocolor, State};
use led::pin::{Level, OutputPin};
use led::Led;

fn light<L: Monocolor>(led: &mut L) {
    led.set(State::On);
}

#[test]
fn mono_keeps_the_pin_it_was_made_with() {
    assert_eq!(CommonAnodeLED::new(OutputPin::new(Level::High)).level(), Level::High);
    assert_eq!(CommonCathodeLED::new(OutputPin::new(Level::Low)).level(), Level::Low);
}

#[test]
fn common_anode_is_lit_by_a_low_pin() {
    for start in [Level::Low, Level::High] {
        let mut led = CommonAnodeLED::new(OutputPin::new(start));
        led.set(State::On);
        assert_eq!(led.level(), Level::Low);
        led.set(State::Off);
        assert_eq!(led.level(), Level::High);
    }
}

#[test]
fn common_cathode_is_lit_by_a_high_pin() {
    for start in [Level::Low, Level::High] {
        let mut led = CommonCathodeLED::new(OutputPin::new(start));
        led.set(State::On);
        assert_eq!(led.level(), Level::High);
        led.set(State::Off);
        assert_eq!(led.level(), Level::Low);
    }
}

#[test]
fn both_polarities_are_monocolor_leds() {
    let mut anode = CommonAnodeLED::new(OutputPin::new(Level::High));
    let mut cathode = CommonCathodeLED::new(OutputPin::new(Level::Low));
    light(&mut anode);
    light(&mut cathode);
    assert_eq!(anode.level(), Level::Low);
    assert_eq!(cathode.level(), Level::High);
}

#[test]
fn polarity_enables_and_disables_a_pin() {
    let mut pin = OutputPin::new(Level::High);
    CommonAnode::enable(&mut pin);
    assert_eq!(pin.level(), Level::Low);
    CommonAnode::disable(&mut pin);
    assert_eq!(pin.level(), Level::High);
    CommonCathode::disable(&mut pin);
    assert_eq!(pin.level(), Level::Low);
    CommonCathode::enable(&mut pin);
    assert_eq!(pin.level(), Level::High);
}

#[test]
fn states_are_ordered_on_before_off() {
    assert!(State::On < State::Off);
    assert_eq!(State::On, State::On);
    assert_ne!(State::On, State::Off);
}
