use vstd::prelude::*;

verus! {

/// Rate, in Hz, at which a running timer counts down.
pub const TIMER_HZ: u32 = 60;

/// Number of executed instructions per timer tick at the given instruction
/// rate.
pub open spec fn cycles_per_tick(instruction_hz: u32) -> int {
    (instruction_hz / TIMER_HZ) as int
}

/// One executed instruction's effect on a timer whose value is `value` and
/// whose count of instructions since it last ticked is `acc`: once the
/// count reaches `ratio` the timer ticks (down by one, never below zero) and
/// the count starts over.
pub open spec fn countdown(value: u8, acc: u32, ratio: int) -> (u8, u32) {
    if acc + 1 >= ratio {
        (if value > 0 { (value - 1) as u8 } else { 0u8 }, 0u32)
    } else {
        (value, (acc + 1) as u32)
    }
}

/// The delay and sound timers, paced by counting executed instructions:
/// each ticks once every `instruction_hz / 60` instructions, which makes
/// 60 ticks per second when instructions run at `instruction_hz`.
/// `dt_lu` and `st_lu` count the instructions since each timer last ticked
/// or was loaded.
pub struct Sound {
    pub dt: u8,
    pub st: u8,
    pub dt_lu: u32,
    pub st_lu: u32,
}

impl Sound {
    /// Both timers stopped.
    pub fn new() -> (r: Sound)
        ensures
            r == (Sound { dt: 0, st: 0, dt_lu: 0, st_lu: 0 }),
    {
        Sound { dt: 0, st: 0, dt_lu: 0, st_lu: 0 }
    }

    /// Loads the delay timer and restarts its count.
    pub fn set_delay(&mut self, value: u8)
        ensures
            *final(self) == (Sound { dt: value, dt_lu: 0, ..*old(self) }),
    {
        self.dt = value;
        self.dt_lu = 0;
    }

    /// Loads the sound timer and restarts its count.
    pub fn set_sound(&mut self, value: u8)
        ensures
            *final(self) == (Sound { st: value, st_lu: 0, ..*old(self) }),
    {
        self.st = value;
        self.st_lu = 0;
    }

    /// Accounts for one executed instruction at the given instruction rate.
    pub fn tick(&mut self, instruction_hz: u32)
        ensures
            (final(self).dt, final(self).dt_lu) == countdown(
                old(self).dt,
                old(self).dt_lu,
                cycles_per_tick(instruction_hz),
            ),
            (final(self).st, final(self).st_lu) == countdown(
                old(self).st,
                old(self).st_lu,
                cycles_per_tick(instruction_hz),
            ),
    {
        let ratio = instruction_hz / TIMER_HZ;
        if self.dt_lu >= ratio || self.dt_lu + 1 >= ratio {
            if self.dt > 0 {
                self.dt = self.dt - 1;
            }
            self.dt_lu = 0;
        } else {
            self.dt_lu = self.dt_lu + 1;
        }
        if self.st_lu >= ratio || self.st_lu + 1 >= ratio {
            if self.st > 0 {
                self.st = self.st - 1;
            }
            self.st_lu = 0;
        } else {
            self.st_lu = self.st_lu + 1;
        }
    }

    /// Whether the buzzer should sound.
    pub fn sounding(&self) -> (r: bool)
        ensures
            r == (self.st > 0),
    {
        self.st > 0
    }
}

} // verus!
