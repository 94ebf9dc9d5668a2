//! Monocolor LEDs, and the two polarities an LED can be wired in.

use crate::pin::{Level, OutputPin};
use core::marker::PhantomData;
use vstd::prelude::*;

verus! {

/// A common anode LED.
pub type CommonAnodeLED = LED<CommonAnode>;

/// A common cathode LED.
pub type CommonCathodeLED = LED<CommonCathode>;

/// A monocolor LED, whatever its polarity.
pub trait Monocolor: crate::Led<State = State> {
}

impl<L> Monocolor for L where L: crate::Led<State = State> {
}

/// Whether a monocolor LED is lit.
#[derive(Clone, Copy, Debug, Eq, Ord, PartialEq, PartialOrd)]
pub enum State {
    On,
    Off,
}

/// A monocolor LED of polarity `C` on one pin.
pub struct LED<C> {
    common: PhantomData<C>,
    pin: OutputPin,
}

impl<C> View for LED<C> {
    type V = Level;

    closed spec fn view(&self) -> Level {
        self.pin@
    }
}

impl<C: Common> LED<C> {
    /// A monocolor LED on the given pin, which keeps its level.
    pub fn new(pin: OutputPin) -> (led: LED<C>)
        ensures
            led@ == pin@,
    {
        LED { common: PhantomData, pin }
    }

    /// The level the pin is driven to.
    pub fn level(&self) -> (level: Level)
        ensures
            level == self@,
    {
        self.pin.level()
    }
}

impl<C: Common> crate::Led for LED<C> {
    type State = State;

    open spec fn shows(&self, state: State) -> bool {
        self@ == level_of::<C>(state is On)
    }

    /// Lights the LED or puts it out.
    fn set(&mut self, state: State)
        ensures
            final(self)@ == level_of::<C>(state is On),
    {
        match state {
            State::Off => C::disable(&mut self.pin),
            State::On => C::enable(&mut self.pin),
        }
    }
}

/// The polarity of an LED: which level on its pin lights it.
pub trait Common {
    /// The level that lights the LED.
    spec fn active() -> Level;

    /// Drives `pin` to the level that lights the LED.
    fn enable(pin: &mut OutputPin)
        ensures
            final(pin)@ == Self::active(),
    ;

    /// Drives `pin` to the level that puts the LED out.
    fn disable(pin: &mut OutputPin)
        ensures
            final(pin)@ == Self::active().inverse(),
    ;
}

/// The level of the pin of an LED of polarity `C` that is lit (`lit`) or
/// out.
pub open spec fn level_of<C: Common>(lit: bool) -> Level {
    if lit {
        C::active()
    } else {
        C::active().inverse()
    }
}

/// Marks an LED whose anode is shared: a low pin lights it.
pub struct CommonAnode {
    private: PhantomData<()>,
}

/// Marks an LED whose cathode is shared: a high pin lights it.
pub struct CommonCathode {
    private: PhantomData<()>,
}

impl Common for CommonAnode {
    open spec fn active() -> Level {
        Level::Low
    }

    fn enable(pin: &mut OutputPin) {
        pin.set_low();
    }

    fn disable(pin: &mut OutputPin) {
        pin.set_high();
    }
}

impl Common for CommonCathode {
    open spec fn active() -> Level {
        Level::High
    }

    fn enable(pin: &mut OutputPin) {
        pin.set_high();
    }

    fn disable(pin: &mut OutputPin) {
        pin.set_low();
    }
}

} // verus!
