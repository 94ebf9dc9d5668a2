//! RGB LEDs.
//!
//! The three pins are binary, so eight colors can be shown: the primary
//! colors, the secondary colors, white and black.

use crate::mono::level_of;
use crate::pin::{Level, OutputPin};
use core::marker::PhantomData;
use vstd::prelude::*;

pub use crate::mono::{Common, CommonAnode, CommonCathode};

verus! {

/// The primary and secondary colors that an RGB LED can show, with white and
/// black.
#[derive(Clone, Copy, Debug, PartialEq, Eq)]
pub enum Color {
    Red,
    Green,
    Blue,
    Yellow,
    Cyan,
    Magenta,
    White,
    Black,
}

impl Color {
    /// Whether the color holds red.
    pub open spec fn red(self) -> bool {
        self is Red || self is Yellow || self is Magenta || self is White
    }

    /// Whether the color holds green.
    pub open spec fn green(self) -> bool {
        self is Green || self is Yellow || self is Cyan || self is White
    }

    /// Whether the color holds blue.
    pub open spec fn blue(self) -> bool {
        self is Blue || self is Cyan || self is Magenta || self is White
    }
}

/// The levels of the three pins of an RGB LED.
#[derive(Clone, Copy, Debug, PartialEq, Eq)]
pub struct Levels {
    pub red: Level,
    pub green: Level,
    pub blue: Level,
}

/// The levels that show `color` on an LED of polarity `C`.
pub open spec fn levels_of<C: Common>(color: Color) -> Levels {
    Levels {
        red: level_of::<C>(color.red()),
        green: level_of::<C>(color.green()),
        blue: level_of::<C>(color.blue()),
    }
}

/// A common anode LED.
pub type CommonAnodeLed = Led<CommonAnode>;

/// A common cathode LED.
pub type CommonCathodeLed = Led<CommonCathode>;

/// An RGB LED of polarity `C`, on one pin for each of its three elements.
pub struct Led<C> {
    common: PhantomData<C>,
    red: OutputPin,
    green: OutputPin,
    blue: OutputPin,
}

impl<C> View for Led<C> {
    type V = Levels;

    closed spec fn view(&self) -> Levels {
        Levels { red: self.red@, green: self.green@, blue: self.blue@ }
    }
}

impl<C: Common> Led<C> {
    /// An RGB LED on the three given pins, which keep their levels.
    pub fn new(red: OutputPin, green: OutputPin, blue: OutputPin) -> (led: Led<C>)
        ensures
            led@ == (Levels { red: red@, green: green@, blue: blue@ }),
    {
        Led { common: PhantomData, red, green, blue }
    }

    /// The levels the three pins are driven to.
    pub fn levels(&self) -> (levels: Levels)
        ensures
            levels == self@,
    {
        Levels { red: self.red.level(), green: self.green.level(), blue: self.blue.level() }
    }
}

impl<C: Common> crate::Led for Led<C> {
    type State = Color;

    open spec fn shows(&self, color: Color) -> bool {
        self@ == levels_of::<C>(color)
    }

    /// Shows `color`: the elements that `color` holds are enabled, the
    /// others disabled.
    fn set(&mut self, color: Color)
        ensures
            final(self)@ == levels_of::<C>(color),
    {
        match color {
            Color::Red => {
                C::enable(&mut self.red);
                C::disable(&mut self.green);
                C::disable(&mut self.blue);
            },
            Color::Green => {
                C::disable(&mut self.red);
                C::enable(&mut self.green);
                C::disable(&mut self.blue);
            },
            Color::Blue => {
                C::disable(&mut self.red);
                C::disable(&mut self.green);
                C::enable(&mut self.blue);
            },
            Color::Yellow => {
                C::enable(&mut self.red);
                C::enable(&mut self.green);
                C::disable(&mut self.blue);
            },
            Color::Cyan => {
                C::disable(&mut self.red);
                C::enable(&mut self.green);
                C::enable(&mut self.blue);
            },
            Color::Magenta => {
                C::enable(&mut self.red);
                C::disable(&mut self.green);
                C::enable(&mut self.blue);
            },
            Color::White => {
                C::enable(&mut self.red);
                C::enable(&mut self.green);
                C::enable(&mut self.blue);
            },
            Color::Black => {
                C::disable(&mut self.red);
                C::disable(&mut self.green);
                C::disable(&mut self.blue);
            },
        }
    }
}

/// An RGB LED, whatever its polarity.
pub trait Rgb: crate::Led<State = Color> {
}

impl<L> Rgb for L where L: crate::Led<State = Color> {
}

} // verus!
