//! Drivers for LED output devices attached to digital output pins: single
//! monocolor LEDs, RGB LEDs and fourteen-segment alphanumeric displays.
//!
//! Every driver works on the pin values of [`pin`]: it decides which level
//! each of its pins is driven to, and its contract states that decision.
//! Copying those levels to the hardware is left to the caller.

pub mod alphanumeric;
pub mod mono;
pub mod pin;
pub mod rgb;

pub use crate::rgb::Color;

use crate::mono::CommonAnode;
use crate::pin::OutputPin;
use crate::rgb::{levels_of, Levels};
use vstd::prelude::*;

verus! {

/// What every LED driver of this crate offers: it can be set to a state.
pub trait Led {
    /// What the LED can show.
    type State;

    /// Whether the driver is in the condition that `set` leaves it in for
    /// `state`. A driver that does not say what that is promises nothing.
    open spec fn shows(&self, state: Self::State) -> bool {
        true
    }

    /// Makes the LED show `state`.
    fn set(&mut self, state: Self::State)
        ensures
            final(self).shows(state),
    ;
}

/// An RGB LED with a common anode: an element is lit while its pin is low.
pub struct RGB {
    red: OutputPin,
    green: OutputPin,
    blue: OutputPin,
}

impl View for RGB {
    type V = Levels;

    closed spec fn view(&self) -> Levels {
        Levels { red: self.red@, green: self.green@, blue: self.blue@ }
    }
}

impl RGB {
    /// An RGB LED on the three given pins, which keep their levels.
    pub fn new(red: OutputPin, green: OutputPin, blue: OutputPin) -> (led: RGB)
        ensures
            led@ == (Levels { red: red@, green: green@, blue: blue@ }),
    {
        RGB { red, green, blue }
    }

    /// The levels the three pins are driven to.
    pub fn levels(&self) -> (levels: Levels)
        ensures
            levels == self@,
    {
        Levels { red: self.red.level(), green: self.green.level(), blue: self.blue.level() }
    }

    /// Shows `color`: the pins of the elements that `color` holds go low,
    /// the others high.
    pub fn set_color(&mut self, color: Color)
        ensures
            final(self)@ == levels_of::<CommonAnode>(color),
    {
        match color {
            Color::Red => {
                self.red.set_low();
                self.green.set_high();
                self.blue.set_high();
            },
            Color::Green => {
                self.red.set_high();
                self.green.set_low();
                self.blue.set_high();
            },
            Color::Blue => {
                self.red.set_high();
                self.green.set_high();
                self.blue.set_low();
            },
            Color::Yellow => {
                self.red.set_low();
                self.green.set_low();
                self.blue.set_high();
            },
            Color::Cyan => {
                self.red.set_high();
                self.green.set_low();
                self.blue.set_low();
            },
            Color::Magenta => {
                self.red.set_low();
                self.green.set_high();
                self.blue.set_low();
            },
            Color::White => {
                self.red.set_low();
                self.green.set_low();
                self.blue.set_low();
            },
            Color::Black => {
                self.red.set_high();
                self.green.set_high();
                self.blue.set_high();
            },
        }
    }
}

} // verus!
