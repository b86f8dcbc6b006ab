use vstd::prelude::*;

verus! {

/// Hit points: a maximum, the current amount, and temporary hit points that
/// absorb damage first.
#[derive(Debug, Clone, Copy, PartialEq, Eq, Structural)]
pub struct Health {
    max: u32,
    current: u32,
    temp: u32,
}

impl Health {
    pub closed spec fn spec_max(&self) -> u32 {
        self.max
    }

    pub closed spec fn spec_current(&self) -> u32 {
        self.current
    }

    pub closed spec fn spec_temp(&self) -> u32 {
        self.temp
    }

    /// Full health at `max`, with no temporary hit points.
    pub fn new(max: u32) -> (r: Health)
        ensures
            r.max() == max,
            r.current() == max,
            r.temp() == 0,
    {
        Health { max, current: max, temp: 0 }
    }

    #[verifier::when_used_as_spec(spec_max)]
    pub fn max(&self) -> (r: u32)
        ensures
            r == self.max(),
    {
        self.max
    }

    /// Raises the maximum by `value`; the current amount stays as it is.
    pub fn increase_max(&mut self, value: u32) -> (r: u32)
        requires
            old(self).max() + value <= u32::MAX,
        ensures
            final(self).max() == old(self).max() + value,
            final(self).current() == old(self).current(),
            final(self).temp() == old(self).temp(),
            r == final(self).max(),
    {
        self.max = self.max + value;
        self.max
    }

    #[verifier::when_used_as_spec(spec_current)]
    pub fn current(&self) -> (r: u32)
        ensures
            r == self.current(),
    {
        self.current
    }

    #[verifier::when_used_as_spec(spec_temp)]
    pub fn temp(&self) -> (r: u32)
        ensures
            r == self.temp(),
    {
        self.temp
    }

    /// Sets a new amount of temporary HP. Does nothing if the character already
    /// has at least as much temporary HP as the new value.
    pub fn set_temp(&mut self, value: u32)
        ensures
            final(self).temp() == (if old(self).temp() < value {
                value
            } else {
                old(self).temp()
            }),
            final(self).max() == old(self).max(),
            final(self).current() == old(self).current(),
    {
        if self.temp < value {
            self.temp = value;
        }
    }

    /// Heals by the specified amount, up to the maximum HP.
    pub fn heal(&mut self, value: u32) -> (r: u32)
        ensures
            final(self).current() == (if old(self).current() + value <= old(self).max() {
                old(self).current() + value
            } else {
                old(self).max() as int
            }),
            final(self).current() <= final(self).max(),
            final(self).max() == old(self).max(),
            final(self).temp() == old(self).temp(),
            r == final(self).current(),
    {
        if self.current >= self.max || value >= self.max - self.current {
            self.current = self.max;
        } else {
            self.current = self.current + value;
        }
        self.current
    }

    /// Damages the character. Damage is first taken from temporary HP, and the
    /// current amount does not go below 0.
    pub fn damage(&mut self, value: u32) -> (r: u32)
        ensures
            old(self).temp() >= value ==> final(self).temp() == old(self).temp() - value
                && final(self).current() == old(self).current(),
            old(self).temp() < value ==> final(self).temp() == 0 && final(self).current() == (if old(
                self,
            ).current() + old(self).temp() <= value {
                0
            } else {
                old(self).current() + old(self).temp() - value
            }),
            final(self).max() == old(self).max(),
            r == final(self).current(),
    {
        if self.temp >= value {
            self.temp = self.temp - value;
            self.current
        } else {
            let rest = value - self.temp;
            self.temp = 0;
            if self.current <= rest {
                self.current = 0;
            } else {
                self.current = self.current - rest;
            }
            self.current
        }
    }
}

} // verus!
