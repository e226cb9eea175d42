//! LED control on the Crazyflie.
//!
//! [`Leds`] holds the five LEDs, indexed by [`LedN`]. Each [`Led`] knows how it is wired: the
//! LEDs on port C light up when their pin is driven low, the one on port D when it is driven
//! high. The library keeps the level each pin should drive; the integration layer writes
//! that level to the GPIO output register.
use vstd::prelude::*;

verus! {

/// Level that a push-pull output pin is set to drive.
#[derive(Clone, Copy, Debug, PartialEq, Eq, Structural)]
pub struct OutputPin {
    pub set_high: bool,
}

/// One of the LEDs on the Crazyflie, with the pin that drives it.
#[derive(Clone, Copy, Debug, PartialEq, Eq, Structural)]
pub enum Led {
    /// LED on GPIOC: lit while its pin is low, the reverse polarity of [`Led::LedD`].
    LedC(OutputPin),
    /// LED on GPIOD: lit while its pin is high.
    LedD(OutputPin),
}

impl Led {
    /// Whether the LED is lit, given its wiring and its pin's level.
    pub open spec fn lit(self) -> bool {
        match self {
            Led::LedC(pin) => !pin.set_high,
            Led::LedD(pin) => pin.set_high,
        }
    }

    /// Whether the LED's pin is set to drive high.
    pub open spec fn pin_high(self) -> bool {
        match self {
            Led::LedC(pin) => pin.set_high,
            Led::LedD(pin) => pin.set_high,
        }
    }

    /// Whether two LEDs are wired to the same port.
    pub open spec fn same_port(self, other: Led) -> bool {
        (self is LedC) == (other is LedC)
    }

    /// Turn the LED off.
    pub fn off(&mut self)
        ensures
            !final(self).lit(),
            final(self).same_port(*old(self)),
    {
        *self = match *self {
            Led::LedC(_) => Led::LedC(OutputPin { set_high: true }),
            Led::LedD(_) => Led::LedD(OutputPin { set_high: false }),
        };
    }

    /// Turn the LED on.
    pub fn on(&mut self)
        ensures
            final(self).lit(),
            final(self).same_port(*old(self)),
    {
        *self = match *self {
            Led::LedC(_) => Led::LedC(OutputPin { set_high: false }),
            Led::LedD(_) => Led::LedD(OutputPin { set_high: true }),
        };
    }

    /// Check if the LED is turned on.
    pub fn is_on(&self) -> (r: bool)
        ensures
            r == self.lit(),
    {
        match self {
            Led::LedC(pin) => !pin.set_high,
            Led::LedD(pin) => pin.set_high,
        }
    }

    /// Check if the LED is turned off.
    pub fn is_off(&self) -> (r: bool)
        ensures
            r == !self.lit(),
    {
        !self.is_on()
    }

    /// The level the LED's pin should drive.
    pub fn pin(&self) -> (r: OutputPin)
        ensures
            r == match *self {
                Led::LedC(pin) => pin,
                Led::LedD(pin) => pin,
            },
    {
        match self {
            Led::LedC(pin) => *pin,
            Led::LedD(pin) => *pin,
        }
    }
}

/// A specific LED; use it to pick one out of [`Leds`].
#[derive(Clone, Copy, Debug, PartialEq, Eq, Structural)]
pub enum LedN {
    /// Red LED on the left
    RedLeft,
    /// Green LED on the left
    GreenLeft,
    /// Blue LED on the left
    BlueLeft,
    /// Red LED on the right
    RedRight,
    /// Green LED on the right
    GreenRight,
}

/// Position of an LED in [`Leds`].
pub open spec fn led_index(led: LedN) -> int {
    match led {
        LedN::RedLeft => 0,
        LedN::GreenLeft => 1,
        LedN::BlueLeft => 2,
        LedN::RedRight => 3,
        LedN::GreenRight => 4,
    }
}

fn index_of(led: LedN) -> (r: usize)
    ensures
        r == led_index(led),
{
    match led {
        LedN::RedLeft => 0,
        LedN::GreenLeft => 1,
        LedN::BlueLeft => 2,
        LedN::RedRight => 3,
        LedN::GreenRight => 4,
    }
}

/// Container for the LEDs on the Crazyflie.
pub struct Leds {
    leds: [Led; 5],
}

impl View for Leds {
    type V = Seq<Led>;

    closed spec fn view(&self) -> Seq<Led> {
        self.leds@
    }
}

impl Leds {
    /// Whether the LEDs are wired as on the board: only the blue one is on port D.
    pub open spec fn board_wiring(self) -> bool {
        &&& self@.len() == 5
        &&& forall|i: int| 0 <= i < 5 ==> (#[trigger] self@[i] is LedD <==> i == 2)
    }

    /// The LEDs as the pins leave reset: every output low, so the port C LEDs are lit.
    pub fn new() -> (r: Self)
        ensures
            r.board_wiring(),
            forall|i: int| 0 <= i < 5 ==> !(#[trigger] r@[i]).pin_high(),
    {
        let low = OutputPin { set_high: false };
        Leds { leds: [Led::LedC(low), Led::LedC(low), Led::LedD(low), Led::LedC(low), Led::LedC(low)] }
    }

    /// The LED named `led`.
    pub fn get(&self, led: LedN) -> (r: &Led)
        ensures
            self@.len() == 5,
            *r == self@[led_index(led)],
    {
        &self.leds[index_of(led)]
    }

    /// Turn the LED named `led` on.
    pub fn on(&mut self, led: LedN)
        ensures
            final(self)@.len() == 5,
            forall|i: int| 0 <= i < 5 && i != led_index(led) ==> #[trigger] final(self)@[i] == old(self)@[i],
            final(self)@[led_index(led)].lit(),
            final(self)@[led_index(led)].same_port(old(self)@[led_index(led)]),
    {
        let i = index_of(led);
        let mut l = self.leds[i];
        l.on();
        self.leds[i] = l;
    }

    /// Turn the LED named `led` off.
    pub fn off(&mut self, led: LedN)
        ensures
            final(self)@.len() == 5,
            forall|i: int| 0 <= i < 5 && i != led_index(led) ==> #[trigger] final(self)@[i] == old(self)@[i],
            !final(self)@[led_index(led)].lit(),
            final(self)@[led_index(led)].same_port(old(self)@[led_index(led)]),
    {
        let i = index_of(led);
        let mut l = self.leds[i];
        l.off();
        self.leds[i] = l;
    }

    /// Turn off all LEDs.
    pub fn clear_all(&mut self)
        ensures
            final(self)@.len() == 5,
            forall|i: int| 0 <= i < 5 ==> !(#[trigger] final(self)@[i]).lit() && final(self)@[i].same_port(old(self)@[i]),
    {
        let mut k: usize = 0;
        while k < 5
            invariant
                k <= 5,
                self@.len() == 5,
                forall|i: int| 0 <= i < k ==> !(#[trigger] self@[i]).lit() && self@[i].same_port(old(self)@[i]),
                forall|i: int| k <= i < 5 ==> #[trigger] self@[i] == old(self)@[i],
            decreases 5 - k,
        {
            let mut l = self.leds[k];
            l.off();
            self.leds[k] = l;
            k = k + 1;
        }
    }

    /// Turn all LEDs on.
    pub fn set_all(&mut self)
        ensures
            final(self)@.len() == 5,
            forall|i: int| 0 <= i < 5 ==> (#[trigger] final(self)@[i]).lit() && final(self)@[i].same_port(old(self)@[i]),
    {
        let mut k: usize = 0;
        while k < 5
            invariant
                k <= 5,
                self@.len() == 5,
                forall|i: int| 0 <= i < k ==> (#[trigger] self@[i]).lit() && self@[i].same_port(old(self)@[i]),
                forall|i: int| k <= i < 5 ==> #[trigger] self@[i] == old(self)@[i],
            decreases 5 - k,
        {
            let mut l = self.leds[k];
            l.on();
            self.leds[k] = l;
            k = k + 1;
        }
    }
}

} // verus!
