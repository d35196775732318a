//! The divider/TIMA timer. DIV is the high byte of a 16-bit counter that
//! advances every cycle; TIMA increments on a falling edge of one chosen
//! counter bit, and overflows into a one-cycle delayed reload from TMA
//! that raises the timer interrupt.

use vstd::prelude::*;

verus! {

use crate::bus::spec_wrap16;

/// The four TAC input-clock selections.
#[derive(Debug, Clone, Copy, PartialEq, Eq, Structural)]
pub enum ClockSpeed {
    Speed0,
    Speed1,
    Speed2,
    Speed3,
}

/// The two TAC bits that name a clock selection.
pub open spec fn spec_speed_bits(cs: ClockSpeed) -> u8 {
    match cs {
        ClockSpeed::Speed0 => 0,
        ClockSpeed::Speed1 => 1,
        ClockSpeed::Speed2 => 2,
        ClockSpeed::Speed3 => 3,
    }
}

/// The clock selection two TAC bits name.
pub open spec fn spec_speed_of(v: u8) -> ClockSpeed {
    if v == 0 {
        ClockSpeed::Speed0
    } else if v == 1 {
        ClockSpeed::Speed1
    } else if v == 2 {
        ClockSpeed::Speed2
    } else {
        ClockSpeed::Speed3
    }
}

/// The counter bit whose falling edge steps TIMA, per clock selection.
pub open spec fn spec_edge_bit(cs: ClockSpeed, v: u16) -> bool {
    match cs {
        ClockSpeed::Speed0 => (v >> 9) & 1 != 0,
        ClockSpeed::Speed1 => (v >> 3) & 1 != 0,
        ClockSpeed::Speed2 => (v >> 5) & 1 != 0,
        ClockSpeed::Speed3 => (v >> 7) & 1 != 0,
    }
}

/// The timer: the 16-bit divider counter, TIMA, TMA, the TAC enable and
/// clock selection, and the pending-reload latch of a TIMA overflow.
#[derive(Debug, Clone, Copy, PartialEq, Eq, Structural)]
pub struct Timer {
    pub div_timer: u16,
    pub tima: u8,
    pub tma: u8,
    pub tac_timer_enable: bool,
    pub tac_input_clock_select: ClockSpeed,
    pub tima_has_overflowed: bool,
}

/// The timer after the divider counter moves to `new_value`: on a falling
/// edge of the selected bit, TIMA steps, recording an overflow for the
/// next cycle.
pub open spec fn spec_update_div(t: Timer, new_value: u16) -> Timer {
    let old_bit = spec_edge_bit(t.tac_input_clock_select, t.div_timer);
    let new_bit = spec_edge_bit(t.tac_input_clock_select, new_value);
    if t.tac_timer_enable && old_bit && !new_bit {
        if t.tima == 0xFF {
            Timer { div_timer: new_value, tima: 0, tima_has_overflowed: true, ..t }
        } else {
            Timer { div_timer: new_value, tima: (t.tima + 1) as u8, ..t }
        }
    } else {
        Timer { div_timer: new_value, ..t }
    }
}

/// One cycle of the timer: a pending overflow reloads TIMA from TMA and
/// requests the interrupt, then the divider counter advances by one.
pub open spec fn spec_timer_tick(t: Timer) -> (Timer, bool) {
    let reloaded = if t.tima_has_overflowed {
        Timer { tima_has_overflowed: false, tima: t.tma, ..t }
    } else {
        t
    };
    (spec_update_div(reloaded, spec_wrap16(reloaded.div_timer + 1)), t.tima_has_overflowed)
}

/// `n` cycles of the timer; the request flag is the disjunction over the
/// cycles.
pub open spec fn spec_timer_cycle(t: Timer, n: nat) -> (Timer, bool)
    decreases n,
{
    if n == 0 {
        (t, false)
    } else {
        let stepped = spec_timer_tick(t);
        let rest = spec_timer_cycle(stepped.0, (n - 1) as nat);
        (rest.0, stepped.1 || rest.1)
    }
}

impl Timer {
    /// Everything cleared: counting from zero, timer disabled.
    pub fn new() -> (t: Timer)
        ensures
            t == (Timer {
                div_timer: 0,
                tima: 0,
                tma: 0,
                tac_timer_enable: false,
                tac_input_clock_select: ClockSpeed::Speed0,
                tima_has_overflowed: false,
            }),
    {
        Timer {
            div_timer: 0,
            tima: 0,
            tma: 0,
            tac_timer_enable: false,
            tac_input_clock_select: ClockSpeed::Speed0,
            tima_has_overflowed: false,
        }
    }

    /// Moves the divider counter, stepping TIMA on a falling edge of the
    /// selected bit.
    fn update_div(&mut self, new_value: u16)
        ensures
            *final(self) == spec_update_div(*old(self), new_value),
    {
        let old_div_timer = self.div_timer;
        self.div_timer = new_value;
        if self.tac_timer_enable {
            let old_bit = match self.tac_input_clock_select {
                ClockSpeed::Speed0 => (old_div_timer >> 9) & 1 != 0,
                ClockSpeed::Speed1 => (old_div_timer >> 3) & 1 != 0,
                ClockSpeed::Speed2 => (old_div_timer >> 5) & 1 != 0,
                ClockSpeed::Speed3 => (old_div_timer >> 7) & 1 != 0,
            };
            let new_bit = match self.tac_input_clock_select {
                ClockSpeed::Speed0 => (new_value >> 9) & 1 != 0,
                ClockSpeed::Speed1 => (new_value >> 3) & 1 != 0,
                ClockSpeed::Speed2 => (new_value >> 5) & 1 != 0,
                ClockSpeed::Speed3 => (new_value >> 7) & 1 != 0,
            };
            if old_bit && !new_bit {
                if self.tima == 0xFF {
                    self.tima = 0;
                    self.tima_has_overflowed = true;
                } else {
                    self.tima = self.tima + 1;
                }
            }
        }
    }

    /// Runs the timer for the given number of cycles; true when any of
    /// them raised the timer interrupt.
    pub fn cycle(&mut self, cycles: u8) -> (request: bool)
        ensures
            *final(self) == spec_timer_cycle(*old(self), cycles as nat).0,
            request == spec_timer_cycle(*old(self), cycles as nat).1,
    {
        let mut request_interrupt = false;
        let mut i: u8 = 0;
        while i < cycles
            invariant
                i <= cycles,
                spec_timer_cycle(*old(self), cycles as nat).0 == spec_timer_cycle(
                    *self,
                    (cycles - i) as nat,
                ).0,
                spec_timer_cycle(*old(self), cycles as nat).1 == (request_interrupt
                    || spec_timer_cycle(*self, (cycles - i) as nat).1),
            decreases cycles - i,
        {
            proof {
                assert(spec_timer_cycle(*self, (cycles - i) as nat)
                    == (spec_timer_cycle(spec_timer_tick(*self).0, (cycles - i - 1) as nat).0,
                    spec_timer_tick(*self).1 || spec_timer_cycle(spec_timer_tick(*self).0, (
                    cycles - i - 1) as nat).1));
            }
            if self.tima_has_overflowed {
                // One cycle after the overflow: reload from TMA and raise
                // the interrupt.
                self.tima_has_overflowed = false;
                self.tima = self.tma;
                request_interrupt = true;
            }
            let next = self.div_timer.wrapping_add(1);
            self.update_div(next);
            i = i + 1;
        }
        request_interrupt
    }

    /// Writes TAC: bit 2 enables the timer, bits 1..0 pick the clock.
    pub fn set_tac(&mut self, tac: u8)
        ensures
            *final(self) == (Timer {
                tac_timer_enable: tac & 0x04 != 0,
                tac_input_clock_select: spec_speed_of(tac & 0x03),
                ..*old(self)
            }),
    {
        self.tac_timer_enable = tac & 0x04 != 0;
        self.tac_input_clock_select = match tac & 0x03 {
            0 => ClockSpeed::Speed0,
            1 => ClockSpeed::Speed1,
            2 => ClockSpeed::Speed2,
            _ => ClockSpeed::Speed3,
        };
    }

    /// Reads TAC back; the unused bits read as one.
    pub fn tac(&self) -> (tac: u8)
        ensures
            tac == (0xF8u8 | (if self.tac_timer_enable {
                0x04u8
            } else {
                0u8
            }) | spec_speed_bits(self.tac_input_clock_select)) as u8,
    {
        0xF8u8 | (if self.tac_timer_enable {
            0x04u8
        } else {
            0u8
        }) | (match self.tac_input_clock_select {
            ClockSpeed::Speed0 => 0u8,
            ClockSpeed::Speed1 => 1u8,
            ClockSpeed::Speed2 => 2u8,
            ClockSpeed::Speed3 => 3u8,
        })
    }

    /// DIV: the high byte of the divider counter.
    pub fn div_timer(&self) -> (div: u8)
        ensures
            div == (self.div_timer >> 8) as u8,
    {
        (self.div_timer >> 8) as u8
    }

    /// A write to DIV clears the whole counter (and can itself produce a
    /// falling edge that steps TIMA).
    pub fn reset_div_timer(&mut self)
        ensures
            *final(self) == spec_update_div(*old(self), 0),
    {
        self.update_div(0);
    }

    /// TIMA, the counting register.
    pub fn tima(&self) -> (tima: u8)
        ensures
            tima == self.tima,
    {
        self.tima
    }

    /// Writes TIMA directly.
    pub fn set_tima(&mut self, tima: u8)
        ensures
            *final(self) == (Timer { tima, ..*old(self) }),
    {
        self.tima = tima;
    }

    /// TMA, the value TIMA reloads from after an overflow.
    pub fn tma(&self) -> (tma: u8)
        ensures
            tma == self.tma,
    {
        self.tma
    }

    /// Writes TMA.
    pub fn set_tma(&mut self, tma: u8)
        ensures
            *final(self) == (Timer { tma, ..*old(self) }),
    {
        self.tma = tma;
    }
}

} // verus!
