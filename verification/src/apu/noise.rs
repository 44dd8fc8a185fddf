use vstd::prelude::*;

use crate::apu::{length_counter_table, FrameCounter, FrameMode, PhaseChange, APU};

verus! {

/// The noise channel.  The waveform phase, a real number, is kept by the
/// audio output.
#[derive(Debug, Clone)]
pub struct Noise {
    pub current_timer: u16,
    pub frame_counter: u8,
    pub clock_count: u16,
    pub envelope_divider: u8,
    pub constant_volume_and_devider_period: u8,
    pub period: u8,
    pub is_loop_noise: bool,
    pub is_constant_volume: bool,
    pub is_loop_envelope_and_counter_halt: bool,
    pub volume: u8,
    pub length_counter_index: u8,
    pub length_counter: u16,
    pub current_volume: u8,
    pub call_back_volume_buf: Vec<u8>,
}

/// The timer periods that the four period bits select.
pub open spec fn noise_period_table() -> Seq<u16> {
    seq![4, 8, 16, 32, 64, 96, 128, 160, 202, 254, 380, 508, 762, 1016, 2034, 4068]
}

/// The noise channel after a write of `data` to register `addr`: register
/// 0 holds the halt and constant-volume flags and the volume, register 2
/// the loop flag and the period index, register 3 the length counter index.
pub open spec fn noise_written(n: Noise, addr: u8, data: u8) -> Noise {
    if addr == 0 {
        Noise {
            is_constant_volume: data & 0x10 != 0,
            is_loop_envelope_and_counter_halt: data & 0x20 != 0,
            volume: data & 0x0F,
            ..n
        }
    } else if addr == 2 {
        Noise {
            is_loop_noise: data & 0x80 != 0,
            period: data & 0x0F,
            current_timer: noise_period_table()[(data & 0x0F) as int],
            ..n
        }
    } else {
        Noise {
            length_counter_index: data >> 3,
            length_counter: length_counter_table()[(data >> 3) as int],
            ..n
        }
    }
}

/// A write of `d` to register 0 of the noise channel: bit 4 of `d` turns
/// constant volume on, bit 5 halts the length counter and loops the
/// envelope, and the low four bits are the volume.  The period and the
/// length counter stay as they were.
pub proof fn lemma_noise_register_0(n: Noise, d: u8)
    ensures
        noise_written(n, 0, d).is_constant_volume == ((d / 16) % 2 == 1),
        noise_written(n, 0, d).is_loop_envelope_and_counter_halt == ((d / 32) % 2 == 1),
        noise_written(n, 0, d).volume == d % 16,
        noise_written(n, 0, d).period == n.period,
        noise_written(n, 0, d).length_counter == n.length_counter,
{
    assert(((d & 0x10) != 0) == ((d / 16) % 2 == 1) && ((d & 0x20) != 0) == ((d / 32) % 2 == 1)
        && (d & 0x0F) == d % 16) by (bit_vector);
}

/// The noise channel after an envelope clock.
pub open spec fn noise_enveloped(n: Noise) -> Noise {
    if n.envelope_divider > 0 {
        Noise { envelope_divider: (n.envelope_divider - 1) as u8, ..n }
    } else {
        Noise {
            envelope_divider: 15,
            constant_volume_and_devider_period: if n.constant_volume_and_devider_period > 0 {
                (n.constant_volume_and_devider_period - 1) as u8
            } else {
                0
            },
            ..n
        }
    }
}

/// The noise channel after a length counter clock.
pub open spec fn noise_length_counted(n: Noise) -> Noise {
    Noise {
        length_counter: if n.length_counter > 0 {
            (n.length_counter - 1) as u16
        } else {
            0
        },
        ..n
    }
}

/// The noise channel after a frame step in five-step mode.
pub open spec fn noise_5step(n: Noise) -> Noise {
    let f = n.frame_counter;
    let n1 = if f == 39 || f == 78 || f == 117 || f == 156 || f == 192 {
        noise_enveloped(n)
    } else {
        n
    };
    let n2 = if f == 78 || f == 192 {
        noise_length_counted(n1)
    } else {
        n1
    };
    if f >= 192 {
        Noise { frame_counter: 0, ..n2 }
    } else {
        n2
    }
}

/// The noise channel after a frame step in four-step mode.
pub open spec fn noise_4step(n: Noise) -> Noise {
    let f = n.frame_counter;
    let n1 = if f == 60 || f == 120 || f == 180 || f == 240 {
        noise_enveloped(n)
    } else {
        n
    };
    let n2 = if f == 120 || f == 240 {
        noise_length_counted(n1)
    } else {
        n1
    };
    if f >= 240 {
        Noise { frame_counter: 0, ..n2 }
    } else {
        n2
    }
}

/// The output volume: the constant volume when it is selected, else 15.
pub open spec fn noise_volume(n: Noise) -> u8 {
    if n.is_constant_volume {
        n.volume
    } else {
        0x0F
    }
}

impl Default for Noise {
    fn default() -> (r: Self)
        ensures
            r.current_timer == 0 && r.length_counter == 0 && r.frame_counter == 0,
    {
        Self::new()
    }
}

impl Noise {
    pub fn new() -> (r: Self)
        ensures
            r.current_timer == 0 && r.length_counter == 0 && r.frame_counter == 0,
    {
        Self {
            current_timer: 0,
            frame_counter: 0,
            clock_count: 0,
            envelope_divider: 0,
            constant_volume_and_devider_period: 0,
            period: 0,
            is_loop_noise: false,
            is_loop_envelope_and_counter_halt: false,
            is_constant_volume: false,
            volume: 0,
            length_counter_index: 0,
            length_counter: 0,
            current_volume: 0,
            call_back_volume_buf: vec![],
        }
    }

    /// The timer period for a four-bit period index.
    pub fn timer_period(period: u8) -> (r: u16)
        requires
            period < 16,
        ensures
            r == noise_period_table()[period as int],
    {
        let table: [u16; 0x10] = [
            4, 8, 16, 32, 64, 96, 128, 160, 202, 254, 380, 508, 762, 1016, 2034, 4068,
        ];
        assert(table@ =~= noise_period_table());
        table[period as usize]
    }

    /// Writes register `addr` (0, 2 or 3) of the channel.
    pub fn set(&mut self, addr: u8, data: u8)
        requires
            addr == 0 || addr == 2 || addr == 3,
        ensures
            *final(self) == noise_written(*old(self), addr, data),
    {
        match addr {
            0 => {
                self.is_constant_volume = (data & 0b00010000) != 0;
                self.is_loop_envelope_and_counter_halt = (data & 0b00100000) != 0;
                self.volume = data & 0b00001111;
            },
            2 => {
                self.is_loop_noise = (data & 0b10000000) != 0;
                self.period = data & 0b00001111;
                proof {
                    crate::util::lemma_masked(data, 0x0F);
                }
                self.current_timer = Self::timer_period(self.period);
            },
            _ => {
                self.length_counter_index = (data & 0b11111000) >> 3;
                proof {
                    crate::util::lemma_byte_fields(data);
                }
                self.length_counter = APU::length_counter(self.length_counter_index);
            },
        }
    }

    pub fn get_volume(&self) -> (r: u8)
        ensures
            r == noise_volume(*self),
    {
        if self.is_constant_volume {
            self.volume
        } else {
            0x0F
        }
    }

    pub fn update_envelop(&mut self)
        ensures
            *final(self) == noise_enveloped(*old(self)),
    {
        if self.envelope_divider > 0 {
            self.envelope_divider -= 1
        } else {
            self.envelope_divider = 15;
            if self.constant_volume_and_devider_period > 0 {
                self.constant_volume_and_devider_period -= 1;
            }
        }
    }

    pub fn update_length_counter(&mut self)
        ensures
            *final(self) == noise_length_counted(*old(self)),
    {
        if self.length_counter > 0 {
            self.length_counter -= 1;
        }
    }

    pub fn update_5step_frame(&mut self)
        ensures
            *final(self) == noise_5step(*old(self)),
    {
        if self.frame_counter == 39 || self.frame_counter == 78 || self.frame_counter == 117
            || self.frame_counter == 156 || self.frame_counter == 192 {
            self.update_envelop();
        }
        if self.frame_counter == 78 || self.frame_counter == 192 {
            self.update_length_counter();
        }
        if self.frame_counter >= 192 {
            self.frame_counter = 0;
        }
    }

    pub fn update_4step_frame(&mut self)
        ensures
            *final(self) == noise_4step(*old(self)),
    {
        if self.frame_counter == 60 || self.frame_counter == 120 || self.frame_counter == 180
            || self.frame_counter == 240 {
            self.update_envelop();
        }
        if self.frame_counter == 120 || self.frame_counter == 240 {
            self.update_length_counter();
        }
        if self.frame_counter >= 240 {
            self.frame_counter = 0;
        }
    }

    pub fn is_signal_enable(&self, is_enable: &bool) -> (r: bool)
        ensures
            r == (*is_enable && (self.length_counter > 0 || self.is_loop_envelope_and_counter_halt)
                && self.current_timer >= 8),
    {
        *is_enable && (self.length_counter > 0 || self.is_loop_envelope_and_counter_halt)
            && self.current_timer >= 8
    }

    /// One channel clock.  When the channel sounds, the output's clock
    /// counts up and every 240 clocks the channel takes a frame step; the
    /// volume is refreshed and the phase increment recomputed.  A silent
    /// channel outputs volume 0 and no phase increment.  The output's volume
    /// buffer takes the volume.
    pub fn update(
        &mut self,
        frame_counter: &FrameCounter,
        is_enable: &bool,
        clock_count: &mut u16,
        volume_buf: &mut Vec<u8>,
    ) -> (r: PhaseChange)
        requires
            old(self).frame_counter < u8::MAX,
            *old(clock_count) < u16::MAX,
        ensures
            ({
                let n = *old(self);
                let on = *is_enable && (n.length_counter > 0 || n.is_loop_envelope_and_counter_halt)
                    && n.current_timer >= 8;
                let c = *old(clock_count) + 1;
                let stepped = Noise { frame_counter: (n.frame_counter + 1) as u8, ..n };
                let next = if c >= 240 {
                    if frame_counter.mode == FrameMode::_4STEP {
                        noise_4step(stepped)
                    } else {
                        noise_5step(stepped)
                    }
                } else {
                    n
                };
                &&& on ==> {
                    &&& *final(clock_count) == (if c >= 240 { c - 240 } else { c })
                    &&& *final(self) == (Noise { current_volume: noise_volume(next), ..next })
                    &&& r == PhaseChange::Recompute
                }
                &&& !on ==> {
                    &&& *final(clock_count) == *old(clock_count)
                    &&& *final(self) == (Noise { current_volume: 0, ..n })
                    &&& r == PhaseChange::Silence
                }
                &&& final(volume_buf)@ == old(volume_buf)@.push(final(self).current_volume)
            }),
    {
        let r;
        if self.is_signal_enable(&is_enable) {
            *clock_count += 1;
            if *clock_count >= 240 {
                *clock_count -= 240;
                self.frame_counter += 1;
                match frame_counter.mode {
                    FrameMode::_4STEP => self.update_4step_frame(),
                    FrameMode::_5STEP => self.update_5step_frame(),
                }
            }
            self.current_volume = self.get_volume();
            r = PhaseChange::Recompute;
        } else {
            self.current_volume = 0;
            r = PhaseChange::Silence;
        };
        volume_buf.push(self.current_volume);
        r
    }
}

} // verus!
