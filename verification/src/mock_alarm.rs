//! A test double for a hardware alarm: the current time and the armed
//! setpoint are plain values that a test sets and reads directly.

use vstd::prelude::*;

verus! {

/// An alarm whose clock a test drives by hand.
pub struct MockAlarm {
    current_time: u32,
    setpoint: Option<u32>,
}

impl MockAlarm {
    /// The current time, as the test last set it.
    pub closed spec fn time(self) -> u32 {
        self.current_time
    }

    /// The armed setpoint, if any.
    pub closed spec fn alarm_setpoint(self) -> Option<u32> {
        self.setpoint
    }

    /// A fresh alarm: time zero, nothing armed.
    pub fn new() -> (a: MockAlarm)
        ensures
            a.time() == 0,
            a.alarm_setpoint() is None,
    {
        MockAlarm { current_time: 0, setpoint: Option::None }
    }

    /// Moves the clock to `new_time`.
    pub fn set_time(&mut self, new_time: u32)
        ensures
            final(self).time() == new_time,
            final(self).alarm_setpoint() == old(self).alarm_setpoint(),
    {
        self.current_time = new_time;
    }

    /// The current time.
    pub fn now(&self) -> (t: u32)
        ensures
            t == self.time(),
    {
        self.current_time
    }

    /// The largest representable tick count.
    pub fn max_tics(&self) -> (t: u32)
        ensures
            t == u32::MAX,
    {
        u32::MAX
    }

    /// Arms the alarm at `tics`, overwriting any earlier setpoint.
    pub fn set_alarm(&mut self, tics: u32)
        ensures
            final(self).alarm_setpoint() == Option::Some(tics),
            final(self).time() == old(self).time(),
    {
        self.setpoint = Option::Some(tics);
    }

    /// The armed setpoint, or zero when nothing is armed.
    pub fn get_alarm(&self) -> (t: u32)
        ensures
            t == (match self.alarm_setpoint() {
                Option::Some(s) => s,
                Option::None => 0u32,
            }),
    {
        match self.setpoint {
            Option::Some(s) => s,
            Option::None => 0,
        }
    }

    /// Whether a setpoint is armed.
    pub fn is_enabled(&self) -> (b: bool)
        ensures
            b == (self.alarm_setpoint() is Some),
    {
        self.setpoint.is_some()
    }

    /// Arms the alarm at zero if nothing is armed; an armed setpoint is
    /// kept.
    pub fn enable(&mut self)
        ensures
            final(self).alarm_setpoint() == (match old(self).alarm_setpoint() {
                Option::Some(s) => Option::Some(s),
                Option::None => Option::Some(0u32),
            }),
            final(self).time() == old(self).time(),
    {
        if self.setpoint.is_none() {
            self.setpoint = Option::Some(0);
        }
    }

    /// Disarms the alarm.
    pub fn disable(&mut self)
        ensures
            final(self).alarm_setpoint() is None,
            final(self).time() == old(self).time(),
    {
        self.setpoint = Option::None;
    }
}

} // verus!
