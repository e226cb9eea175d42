//! The four motors of the Crazyflie.
//!
//! Each [`Motor`] is driven by one PWM channel: motors 1 to 3 by channels of timer 2, motor 4
//! by a channel of timer 4. The library keeps what each channel is set to (enabled, duty
//! cycle) and the largest duty cycle its timer accepts; the integration layer writes these
//! settings to the timers.
use vstd::prelude::*;

verus! {

/// Settings of one PWM output channel.
#[derive(Clone, Copy, Debug, PartialEq, Eq, Structural)]
pub struct PwmChannel {
    /// Whether the channel drives its output.
    pub enabled: bool,
    /// Compare value: the number of timer ticks per period that the output is high.
    pub duty: u16,
    /// Duty cycle at which the output is high for the whole period.
    pub max_duty: u16,
}

/// Abstraction around a single motor.
#[derive(Clone, Copy, Debug, PartialEq, Eq, Structural)]
pub enum Motor {
    M1(PwmChannel),
    M2(PwmChannel),
    M3(PwmChannel),
    M4(PwmChannel),
}

impl Motor {
    /// The PWM channel behind the motor.
    pub open spec fn chan(self) -> PwmChannel {
        match self {
            Motor::M1(c) => c,
            Motor::M2(c) => c,
            Motor::M3(c) => c,
            Motor::M4(c) => c,
        }
    }

    /// Whether two values stand for the same motor.
    pub open spec fn same_motor(self, other: Motor) -> bool {
        match (self, other) {
            (Motor::M1(_), Motor::M1(_)) => true,
            (Motor::M2(_), Motor::M2(_)) => true,
            (Motor::M3(_), Motor::M3(_)) => true,
            (Motor::M4(_), Motor::M4(_)) => true,
            _ => false,
        }
    }

    /// The same motor with its channel replaced by `c`.
    fn with_channel(&self, c: PwmChannel) -> (r: Motor)
        ensures
            r.chan() == c,
            r.same_motor(*self),
    {
        match self {
            Motor::M1(_) => Motor::M1(c),
            Motor::M2(_) => Motor::M2(c),
            Motor::M3(_) => Motor::M3(c),
            Motor::M4(_) => Motor::M4(c),
        }
    }

    /// The settings of the motor's PWM channel.
    pub fn channel(&self) -> (r: PwmChannel)
        ensures
            r == self.chan(),
    {
        match self {
            Motor::M1(c) => *c,
            Motor::M2(c) => *c,
            Motor::M3(c) => *c,
            Motor::M4(c) => *c,
        }
    }

    /// Enable the underlying PWM channel.
    pub fn enable(&mut self)
        ensures
            final(self).same_motor(*old(self)),
            final(self).chan().enabled,
            final(self).chan().duty == old(self).chan().duty,
            final(self).chan().max_duty == old(self).chan().max_duty,
    {
        let c = self.channel();
        *self = self.with_channel(PwmChannel { enabled: true, duty: c.duty, max_duty: c.max_duty });
    }

    /// Disable the underlying PWM channel.
    pub fn disable(&mut self)
        ensures
            final(self).same_motor(*old(self)),
            !final(self).chan().enabled,
            final(self).chan().duty == old(self).chan().duty,
            final(self).chan().max_duty == old(self).chan().max_duty,
    {
        let c = self.channel();
        *self = self.with_channel(PwmChannel { enabled: false, duty: c.duty, max_duty: c.max_duty });
    }

    /// Returns the underlying PWM duty cycle.
    pub fn get_duty(&self) -> (r: u16)
        ensures
            r == self.chan().duty,
    {
        self.channel().duty
    }

    /// Get the maximum duty value for the underlying PWM channel.
    pub fn get_max_duty(&self) -> (r: u16)
        ensures
            r == self.chan().max_duty,
    {
        self.channel().max_duty
    }

    /// Set the duty cycle for the underlying PWM channel.
    pub fn set_duty(&mut self, duty: u16)
        ensures
            final(self).same_motor(*old(self)),
            final(self).chan().duty == duty,
            final(self).chan().enabled == old(self).chan().enabled,
            final(self).chan().max_duty == old(self).chan().max_duty,
    {
        let c = self.channel();
        *self = self.with_channel(PwmChannel { enabled: c.enabled, duty, max_duty: c.max_duty });
    }
}

/// Container for all motors.
pub struct Motors {
    pub m1: Motor,
    pub m2: Motor,
    pub m3: Motor,
    pub m4: Motor,
}

impl Motors {
    /// The four motors in order.
    pub open spec fn motors(self) -> Seq<Motor> {
        seq![self.m1, self.m2, self.m3, self.m4]
    }

    /// Initialize the motors, stopped and disabled. Motors 1 to 3 run on timer 2, whose
    /// largest duty cycle is `tim2_max_duty`; motor 4 runs on timer 4.
    pub fn new(tim2_max_duty: u16, tim4_max_duty: u16) -> (r: Self)
        ensures
            r.m1 == Motor::M1(PwmChannel { enabled: false, duty: 0, max_duty: tim2_max_duty }),
            r.m2 == Motor::M2(PwmChannel { enabled: false, duty: 0, max_duty: tim2_max_duty }),
            r.m3 == Motor::M3(PwmChannel { enabled: false, duty: 0, max_duty: tim2_max_duty }),
            r.m4 == Motor::M4(PwmChannel { enabled: false, duty: 0, max_duty: tim4_max_duty }),
    {
        let off2 = PwmChannel { enabled: false, duty: 0, max_duty: tim2_max_duty };
        let off4 = PwmChannel { enabled: false, duty: 0, max_duty: tim4_max_duty };
        let mut ms = Motors {
            m1: Motor::M1(off2),
            m2: Motor::M2(off2),
            m3: Motor::M3(off2),
            m4: Motor::M4(off4),
        };
        // Make sure the motors are stopped when control is handed over.
        ms.stop();
        ms
    }

    /// Enable all motors.
    pub fn enable(&mut self)
        ensures
            forall|i: int| 0 <= i < 4 ==> {
                let (a, b) = (#[trigger] final(self).motors()[i], old(self).motors()[i]);
                &&& a.same_motor(b)
                &&& a.chan().enabled
                &&& a.chan().duty == b.chan().duty
                &&& a.chan().max_duty == b.chan().max_duty
            },
    {
        self.m1.enable();
        self.m2.enable();
        self.m3.enable();
        self.m4.enable();
    }

    /// Disable all motors.
    pub fn disable(&mut self)
        ensures
            forall|i: int| 0 <= i < 4 ==> {
                let (a, b) = (#[trigger] final(self).motors()[i], old(self).motors()[i]);
                &&& a.same_motor(b)
                &&& !a.chan().enabled
                &&& a.chan().duty == b.chan().duty
                &&& a.chan().max_duty == b.chan().max_duty
            },
    {
        self.m1.disable();
        self.m2.disable();
        self.m3.disable();
        self.m4.disable();
    }

    /// Stop all motors: every duty cycle becomes zero.
    pub fn stop(&mut self)
        ensures
            forall|i: int| 0 <= i < 4 ==> {
                let (a, b) = (#[trigger] final(self).motors()[i], old(self).motors()[i]);
                &&& a.same_motor(b)
                &&& a.chan().duty == 0
                &&& a.chan().enabled == b.chan().enabled
                &&& a.chan().max_duty == b.chan().max_duty
            },
    {
        self.m1.set_duty(0);
        self.m2.set_duty(0);
        self.m3.set_duty(0);
        self.m4.set_duty(0);
    }
}

} // verus!
