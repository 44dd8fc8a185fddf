pub mod noise;

use vstd::prelude::*;

use noise::Noise;

verus! {

/// The sweep unit of a pulse channel.
#[derive(Debug, Clone)]
pub struct Sweep {
    pub dividers_count: u8,
    pub is_enable: bool,
    pub dividers_period: u8,
    pub is_negative: bool,
    pub shift_count: u8,
    pub reload_flag: bool,
}

impl Default for Sweep {
    fn default() -> (r: Self)
        ensures
            r == Sweep::initial(),
            r.wf(),
            sweep_byte_fits(r),
    {
        Self::new()
    }
}

/// The sweep unit after a write of `data` to its register.
pub open spec fn sweep_from_byte(data: u8) -> Sweep {
    Sweep {
        dividers_count: (data >> 4) & 0x07,
        is_enable: data & 0x80 != 0,
        dividers_period: (data >> 4) & 0x07,
        is_negative: data & 0x08 != 0,
        shift_count: data & 0x07,
        reload_flag: true,
    }
}

/// The byte that the sweep register reads as.
pub open spec fn sweep_to_byte(s: Sweep) -> u8 {
    ((if s.is_enable { 0x80int } else { 0 }) + s.dividers_period * 16 + (if s.is_negative {
        0x08int
    } else {
        0
    }) + s.shift_count) as u8
}

/// The fields of the sweep register add up to a byte: always so for a
/// shift below 8, the three bits a write sets.
pub closed spec fn sweep_byte_fits(s: Sweep) -> bool {
    (if s.is_enable { 0x80int } else { 0 }) + s.dividers_period * 16 + (if s.is_negative {
        0x08int
    } else {
        0
    }) + s.shift_count <= 0xFF
}

/// The sweep unit after a clock: the divider counts down, and is reloaded
/// from its period when it is due and a reload was asked for.
pub open spec fn sweep_divided(s: Sweep) -> Sweep {
    if s.dividers_count > 0 {
        Sweep { dividers_count: (s.dividers_count - 1) as u8, ..s }
    } else if s.reload_flag {
        Sweep { dividers_count: s.dividers_period, reload_flag: false, ..s }
    } else {
        s
    }
}

/// The timer period after a sweep step: moved by itself shifted right,
/// down when negating; a period that leaves 9..=0x7FE mutes the channel.
pub open spec fn swept_timer(s: Sweep, timer: u16) -> u16 {
    if s.is_enable && timer > 8 && timer < 0x7FF && s.dividers_count == 0 {
        let t = if s.is_negative {
            timer - (timer >> s.shift_count)
        } else {
            timer + (timer >> s.shift_count)
        };
        if t <= 8 || t >= 0x7FF {
            0
        } else {
            t as u16
        }
    } else {
        timer
    }
}

impl Sweep {
    pub open spec fn initial() -> Sweep {
        Sweep {
            dividers_count: 0,
            is_enable: false,
            dividers_period: 0,
            is_negative: false,
            shift_count: 0,
            reload_flag: false,
        }
    }

    /// The divider period takes three bits; the shift is at most 15, so
    /// that a timer can be shifted by it.
    pub open spec fn wf(&self) -> bool {
        self.dividers_period < 8 && self.shift_count < 16
    }

    pub fn new() -> (r: Self)
        ensures
            r == Sweep::initial(),
            r.wf(),
            sweep_byte_fits(r),
    {
        Self {
            dividers_count: 0,
            is_enable: false,
            dividers_period: 0,
            is_negative: false,
            shift_count: 0,
            reload_flag: false,
        }
    }

    pub fn addr(&mut self) -> (r: u8)
        requires
            old(self).wf(),
            sweep_byte_fits(*old(self)),
        ensures
            r == sweep_to_byte(*old(self)),
            *final(self) == *old(self),
    {
        let p = self.dividers_period;
        let n = self.is_negative as u8;
        assert((1u8 << 7u8) == 0x80u8 && (0u8 << 7u8) == 0u8 && p << 4u8 == p * 16 && n << 3u8
            == n * 8) by (bit_vector)
            requires
                p < 8,
                n < 2,
        ;
        let mut data: u8 = 0;
        data += (self.is_enable as u8) << 7;
        assert(data == (if self.is_enable { 0x80int } else { 0 }));
        data += self.dividers_period << 4;
        data += (self.is_negative as u8) << 3;
        data += self.shift_count;

        data
    }

    pub fn set(&mut self, data: u8)
        ensures
            *final(self) == sweep_from_byte(data),
            final(self).wf(),
            sweep_byte_fits(*final(self)),
    {
        self.dividers_count = 0;
        self.is_enable = (data & 0b10000000) != 0;
        self.dividers_period = (data & 0b01110000) >> 4;
        self.dividers_count = self.dividers_period;
        self.is_negative = (data & 0b00001000) != 0;
        self.shift_count = data & 0b00000111;
        self.reload_flag = true;
        assert((data & 0x70) >> 4u8 == (data >> 4u8) & 0x07 && (data >> 4u8) & 0x07 < 8 && data
            & 0x07 < 8) by (bit_vector);
    }

    /// One sweep clock: adjusts the timer period when the divider is due,
    /// then counts the divider down, reloading it when it is due and a
    /// reload was asked for.
    pub fn update(&mut self, timer: &mut u16)
        requires
            old(self).wf(),
        ensures
            *final(timer) == swept_timer(*old(self), *old(timer)),
            *final(self) == sweep_divided(*old(self)),
            final(self).wf(),
    {
        if self.is_enable && *timer > 8 && *timer < 0x7FF && self.dividers_count == 0 {
            let t = *timer;
            let s = self.shift_count;
            assert(t >> s <= t) by (bit_vector);
            if self.is_negative {
                *timer = *timer - (*timer >> self.shift_count);
            } else {
                *timer = *timer + (*timer >> self.shift_count);
            }
            if *timer <= 8 || *timer >= 0x7FF {
                *timer = 0;
            }
        }
        if self.dividers_count > 0 {
            self.dividers_count -= 1;
        } else if self.dividers_count == 0 && self.reload_flag {
            self.dividers_count = self.dividers_period;
            self.reload_flag = false;
        }
    }
}

/// Writing the sweep register and reading it back gives the byte written.
pub proof fn lemma_sweep_write_then_read(d: u8)
    ensures
        sweep_to_byte(sweep_from_byte(d)) == d,
{
    assert(((if d & 0x80 != 0 { 0x80int } else { 0 }) + ((d >> 4u8) & 0x07) * 16 + (if d & 0x08
        != 0 {
        0x08int
    } else {
        0
    }) + (d & 0x07)) as u8 == d) by (bit_vector);
}

/// The length counter load values, indexed by the five bits written.
pub open spec fn length_counter_table() -> Seq<u16> {
    seq![
        10, 254, 20, 2, 40, 4, 80, 6, 160, 8, 60, 10, 14, 12, 26, 14,
        12, 16, 24, 18, 48, 20, 96, 22, 192, 24, 72, 26, 16, 28, 32, 30,
    ]
}

/// The output volume: the constant volume when it is selected, else 15.
pub open spec fn pulse_volume(p: Pulse) -> u8 {
    if p.is_constant_volume {
        p.constant_volume_and_devider_period
    } else {
        0x0F
    }
}

/// A pulse channel after an envelope clock: the divider counts down from
/// 15; when it runs out it restarts and the period counts one down,
/// stopping at zero.
pub open spec fn pulse_enveloped(p: Pulse) -> Pulse {
    if p.envelope_divider > 0 {
        Pulse { envelope_divider: (p.envelope_divider - 1) as u8, ..p }
    } else {
        Pulse {
            envelope_divider: 15,
            constant_volume_and_devider_period: if p.constant_volume_and_devider_period > 0 {
                (p.constant_volume_and_devider_period - 1) as u8
            } else {
                0
            },
            ..p
        }
    }
}

/// A pulse channel after a length counter clock: counts down, stopping at zero.
pub open spec fn pulse_length_counted(p: Pulse) -> Pulse {
    Pulse {
        length_counter: if p.length_counter > 0 {
            (p.length_counter - 1) as u16
        } else {
            0
        },
        ..p
    }
}

/// A pulse channel after a sweep clock on its running timer.
pub open spec fn pulse_swept(p: Pulse) -> Pulse {
    Pulse {
        current_timer: swept_timer(p.sweep, p.current_timer),
        sweep: sweep_divided(p.sweep),
        ..p
    }
}

/// A pulse channel after a frame step in five-step mode: the envelope is
/// clocked at frames 39, 78, 117, 156 and 192, the length counter and the
/// sweep at frames 78 and 192; from frame 192 on the count starts over.
pub open spec fn pulse_5step(p: Pulse) -> Pulse {
    let f = p.frame_counter;
    let p1 = if f == 39 || f == 78 || f == 117 || f == 156 || f == 192 {
        pulse_enveloped(p)
    } else {
        p
    };
    let p2 = if f == 78 || f == 192 {
        pulse_swept(pulse_length_counted(p1))
    } else {
        p1
    };
    if f >= 192 {
        Pulse { frame_counter: 0, ..p2 }
    } else {
        p2
    }
}

/// A pulse channel after a frame step in four-step mode: the envelope is
/// clocked at frames 60, 120, 180 and 240, the length counter and the sweep
/// at frames 120 and 240; from frame 240 on the count starts over.
pub open spec fn pulse_4step(p: Pulse) -> Pulse {
    let f = p.frame_counter;
    let p1 = if f == 60 || f == 120 || f == 180 || f == 240 {
        pulse_enveloped(p)
    } else {
        p
    };
    let p2 = if f == 120 || f == 240 {
        pulse_swept(pulse_length_counted(p1))
    } else {
        p1
    };
    if f >= 240 {
        Pulse { frame_counter: 0, ..p2 }
    } else {
        p2
    }
}

/// What the audio output does with the waveform phase increment after a
/// channel update.
#[derive(Debug, Clone, Copy, PartialEq, Eq, Structural)]
pub enum PhaseChange {
    /// Recompute it from the channel's running timer period.
    Recompute,
    /// Leave it as it is.
    Keep,
    /// Set it to zero: the channel is silent.
    Silence,
}

/// The byte that register `addr` (0..=3) of a pulse channel reads as.
pub open spec fn pulse_register_byte(p: Pulse, addr: u8) -> u8 {
    if addr == 0 {
        (p.duty * 64 + (if p.is_loop_envelope_and_counter_halt {
            32int
        } else {
            0
        }) + (if p.is_constant_volume { 16int } else { 0 }) + p.constant_volume_and_devider_period) as u8
    } else if addr == 1 {
        sweep_to_byte(p.sweep)
    } else if addr == 2 {
        (p.timer % 256) as u8
    } else {
        ((p.timer / 256) % 8 + (p.length_counter_index / 8) % 32) as u8
    }
}

/// A pulse channel after a write of `data` to register `addr`: register 0
/// holds duty, halt, constant-volume flag and volume; register 2 the low
/// timer byte; register 3 the high timer bits and the length counter index,
/// which loads the length counter.
pub open spec fn pulse_written(p: Pulse, addr: u8, data: u8) -> Pulse {
    if addr == 0 {
        Pulse {
            duty: data >> 6,
            is_loop_envelope_and_counter_halt: data & 0x20 != 0,
            is_constant_volume: data & 0x10 != 0,
            constant_volume_and_devider_period: data & 0x0F,
            ..p
        }
    } else if addr == 2 {
        Pulse {
            timer: (p.timer & 0x700) | data as u16,
            current_timer: (p.timer & 0x700) | data as u16,
            ..p
        }
    } else {
        Pulse {
            timer: (p.timer & 0xFF) | (((data & 0x07) as u16) << 8u16),
            current_timer: (p.timer & 0xFF) | (((data & 0x07) as u16) << 8u16),
            length_counter_index: data >> 3,
            length_counter: length_counter_table()[(data >> 3) as int],
            sequencer_count: p.constant_volume_and_devider_period,
            ..p
        }
    }
}

/// Writing pulse register 0 (duty, halt, constant volume, volume) or
/// register 2 (low timer byte) and reading it back gives the byte written.
pub proof fn lemma_pulse_write_then_read(p: Pulse, d: u8)
    ensures
        pulse_register_byte(pulse_written(p, 0, d), 0) == d,
        pulse_register_byte(pulse_written(p, 2, d), 2) == d,
{
    assert(((d >> 6u8) * 64 + (if d & 0x20 != 0 {
        32int
    } else {
        0
    }) + (if d & 0x10 != 0 { 16int } else { 0 }) + (d & 0x0F)) as u8 == d) by (bit_vector);
    let t = p.timer;
    assert((((t & 0x700) | d as u16) % 256) as u8 == d) by (bit_vector);
}

/// The triangle channel after a write of `data` to register `addr`.
pub open spec fn triangle_written(t: Triangle, addr: u8, data: u8) -> Triangle {
    if addr == 0 {
        Triangle {
            length_counter_halt_or_linear_counter_control: data & 0x80 != 0,
            linear_counter_load: data & 0x7F,
            ..t
        }
    } else if addr == 2 {
        Triangle {
            timer: (t.timer & 0x700) | data as u16,
            current_timer: (t.timer & 0x700) | data as u16,
            ..t
        }
    } else {
        Triangle {
            timer: (t.timer & 0xFF) | (((data & 0x07) as u16) << 8u16),
            current_timer: (t.timer & 0xFF) | (((data & 0x07) as u16) << 8u16),
            length_counter_index: data >> 3,
            length_counter: length_counter_table()[(data >> 3) as int],
            length_counter_halt_or_linear_counter_control: true,
            ..t
        }
    }
}

/// A pulse channel: its registers, sweep, envelope and length counter.
/// The waveform phase, a real number, is kept by the audio output.
#[derive(Debug, Clone)]
pub struct Pulse {
    pub timer: u16,
    pub current_timer: u16,
    pub frame_counter: u8,
    pub sweep: Sweep,
    pub clock_count: u16,
    pub length_counter_index: u8,
    pub length_counter: u16,
    pub current_volume: u8,
    pub call_back_volume_buf: Vec<u8>,
    pub envelope_and_liner_counter: u8,
    pub envelope_divider: u8,
    pub constant_volume_and_devider_period: u8,
    pub is_constant_volume: bool,
    pub sequencer_count: u8,
    pub duty: u8,
    pub call_back_duty_buf: Vec<u8>,
    pub is_loop_envelope_and_counter_halt: bool,
}

impl Default for Pulse {
    fn default() -> (r: Self)
        ensures
            r.wf(),
            r.is_initial(),
    {
        Self::new()
    }
}

impl Pulse {
    /// A channel as it starts: every field zero, false or empty, but the
    /// envelope divider at 15, and the sweep unit as it starts.
    pub open spec fn is_initial(&self) -> bool {
        &&& self.timer == 0 && self.current_timer == 0 && self.frame_counter == 0
        &&& self.sweep == Sweep::initial()
        &&& self.clock_count == 0
        &&& self.length_counter_index == 0 && self.length_counter == 0
        &&& self.current_volume == 0
        &&& self.call_back_volume_buf@ == Seq::<u8>::empty()
        &&& self.envelope_and_liner_counter == 0 && self.envelope_divider == 15
        &&& self.constant_volume_and_devider_period == 0 && !self.is_constant_volume
        &&& self.sequencer_count == 0 && self.duty == 0
        &&& self.call_back_duty_buf@ == Seq::<u8>::empty()
        &&& !self.is_loop_envelope_and_counter_halt
    }

    /// The duty takes two bits, the volume or envelope period four, the
    /// length counter index five, and the sweep register reads as a byte.
    pub open spec fn wf(&self) -> bool {
        &&& self.duty < 4
        &&& self.constant_volume_and_devider_period < 16
        &&& self.length_counter_index < 32
        &&& self.sweep.wf()
        &&& sweep_byte_fits(self.sweep)
    }

    pub fn new() -> (r: Self)
        ensures
            r.wf(),
            r.is_initial(),
    {
        Self {
            timer: 0,
            current_timer: 0,
            frame_counter: 0,
            sweep: Sweep::default(),
            clock_count: 0,
            envelope_and_liner_counter: 0,
            envelope_divider: 15,
            call_back_volume_buf: vec![],
            current_volume: 0,
            length_counter_index: 0,
            length_counter: 0,
            constant_volume_and_devider_period: 0,
            is_constant_volume: false,
            sequencer_count: 0,
            duty: 0,
            call_back_duty_buf: vec![],
            is_loop_envelope_and_counter_halt: false,
        }
    }

    /// Reads register `addr` (0..=3) of the channel.
    pub fn addr(&mut self, addr: u8) -> (r: u8)
        requires
            addr <= 3,
            old(self).wf(),
        ensures
            r == pulse_register_byte(*old(self), addr),
            *final(self) == *old(self),
    {
        let mut n: u8 = 0;
        match addr {
            0 => {
                let d = self.duty;
                let h = self.is_loop_envelope_and_counter_halt as u8;
                let c = self.is_constant_volume as u8;
                assert(d << 6u8 == d * 64 && h << 5u8 == h * 32 && c << 4u8 == c * 16)
                    by (bit_vector)
                    requires
                        d < 4 && h < 2 && c < 2,
                ;
                n += self.duty << 6;
                n += (self.is_loop_envelope_and_counter_halt as u8) << 5;
                n += (self.is_constant_volume as u8) << 4;
                n += self.constant_volume_and_devider_period;
                n
            },
            1 => self.sweep.addr(),
            2 => {
                let t = self.timer;
                assert((t & 0xFF) as u8 == (t % 256) as u8) by (bit_vector);
                n += (self.timer & 0b11111111) as u8;
                n
            },
            _ => {
                let t = self.timer;
                let l = self.length_counter_index;
                assert(((t & 0x700) >> 8u16) as u8 == (t / 256) % 8 && (l & 0xF8) >> 3u8 == (l
                    / 8) % 32) by (bit_vector);
                n += ((self.timer & 0b11100000000) >> 8) as u8;
                n += ((self.length_counter_index & 0b11111000) >> 3) as u8;
                n
            },
        }
    }

    /// Writes register `addr` (0, 2 or 3) of the channel.
    pub fn set(&mut self, addr: u8, data: u8)
        requires
            addr == 0 || addr == 2 || addr == 3,
            old(self).wf(),
        ensures
            final(self).wf(),
            *final(self) == pulse_written(*old(self), addr, data),
    {
        match addr {
            0 => {
                self.duty = (data & 0b11000000) >> 6;
                self.is_loop_envelope_and_counter_halt = (data & 0b00100000) != 0;
                self.is_constant_volume = (data & 0b00010000) != 0;
                self.constant_volume_and_devider_period = data & 0b00001111;
                assert((data & 0xC0) >> 6u8 == data >> 6u8 && data >> 6u8 < 4 && data & 0x0F < 16)
                    by (bit_vector);
            },
            2 => {
                self.timer &= 0x700;
                self.timer |= data as u16;
                self.current_timer = self.timer;
            },
            _ => {
                self.timer &= 0xFF;
                self.timer |= (data as u16 & 0b00000111) << 8;
                self.current_timer = self.timer;
                self.length_counter_index = (data & 0b11111000) >> 3;
                proof {
                    crate::util::lemma_byte_fields(data);
                }
                self.length_counter = APU::length_counter(self.length_counter_index);
                self.sequencer_count = self.constant_volume_and_devider_period;
            },
        }
    }

    /// Writes the sweep register of the channel.
    pub fn sweep_set(&mut self, data: u8)
        requires
            old(self).wf(),
        ensures
            final(self).wf(),
            *final(self) == (Pulse { sweep: sweep_from_byte(data), ..*old(self) }),
    {
        self.sweep.set(data);
    }

    /// Reads the sweep register of the channel.
    pub fn sweep_addr(&mut self) -> (r: u8)
        requires
            old(self).wf(),
        ensures
            r == sweep_to_byte(old(self).sweep),
            *final(self) == *old(self),
    {
        self.sweep.addr()
    }

    /// The output volume: the constant volume when it is selected, else 15.
    pub fn get_volume(&self) -> (r: u8)
        ensures
            r == pulse_volume(*self),
    {
        if self.is_constant_volume {
            self.constant_volume_and_devider_period
        } else {
            0x0F
        }
    }

    /// One envelope clock: the divider counts down from 15; when it runs
    /// out it restarts and the period counts one down, stopping at zero.
    pub fn update_envelop(&mut self)
        ensures
            *final(self) == pulse_enveloped(*old(self)),
    {
        if self.envelope_divider > 0 {
            self.envelope_divider -= 1
        } else {
            self.envelope_divider = 15;
            if self.constant_volume_and_devider_period > 0 {
                self.constant_volume_and_devider_period -= 1;
            }
        }
    }

    /// One length counter clock: counts down, stopping at zero.
    pub fn update_length_counter(&mut self)
        ensures
            *final(self) == pulse_length_counted(*old(self)),
    {
        if self.length_counter > 0 {
            self.length_counter -= 1;
        }
    }

    /// The channel sounds: enabled, with its length counter running or
    /// halted, and a timer period of at least 8.
    pub fn is_signal_enable(&self, is_enable: &bool) -> (r: bool)
        ensures
            r == (*is_enable && (self.length_counter > 0 || self.is_loop_envelope_and_counter_halt)
                && self.current_timer >= 8),
    {
        *is_enable && (self.length_counter > 0 || self.is_loop_envelope_and_counter_halt)
            && self.current_timer >= 8
    }

    pub fn update_5step_frame(&mut self)
        requires
            old(self).wf(),
        ensures
            *final(self) == pulse_5step(*old(self)),
            final(self).wf(),
    {
        if self.frame_counter == 39 || self.frame_counter == 78 || self.frame_counter == 117
            || self.frame_counter == 156 || self.frame_counter == 192 {
            self.update_envelop();
        }
        if self.frame_counter == 78 || self.frame_counter == 192 {
            self.update_length_counter();
            self.sweep.update(&mut self.current_timer);
        }
        if self.frame_counter >= 192 {
            self.frame_counter = 0;
        }
    }

    pub fn update_4step_frame(&mut self)
        requires
            old(self).wf(),
        ensures
            *final(self) == pulse_4step(*old(self)),
            final(self).wf(),
    {
        if self.frame_counter == 60 || self.frame_counter == 120 || self.frame_counter == 180
            || self.frame_counter == 240 {
            self.update_envelop();
        }
        if self.frame_counter == 120 || self.frame_counter == 240 {
            self.update_length_counter();
            self.sweep.update(&mut self.current_timer);
        }
        if self.frame_counter >= 240 {
            self.frame_counter = 0;
        }
    }

    /// One channel clock.  When the channel sounds, the output's clock
    /// counts up; every 240 clocks the channel takes a frame step in the
    /// frame counter's mode, its output volume is refreshed and the phase
    /// increment is recomputed.  A silent channel outputs volume 0 and no
    /// phase increment.  The output's volume and duty buffers take the
    /// volume and the duty.
    pub fn update(
        &mut self,
        frame_counter: &FrameCounter,
        is_enable: &bool,
        clock_count: &mut u16,
        volume_buf: &mut Vec<u8>,
        duty_buf: &mut Vec<u8>,
    ) -> (r: PhaseChange)
        requires
            old(self).wf(),
            old(self).frame_counter < u8::MAX,
            *old(clock_count) < u16::MAX,
        ensures
            final(self).wf(),
            ({
                let p = *old(self);
                let on = *is_enable && (p.length_counter > 0 || p.is_loop_envelope_and_counter_halt)
                    && p.current_timer >= 8;
                let c = *old(clock_count) + 1;
                let stepped = Pulse { frame_counter: (p.frame_counter + 1) as u8, ..p };
                let next = if frame_counter.mode == FrameMode::_4STEP {
                    pulse_4step(stepped)
                } else {
                    pulse_5step(stepped)
                };
                &&& on && c >= 240 ==> {
                    &&& *final(clock_count) == c - 240
                    &&& *final(self) == (Pulse { current_volume: pulse_volume(next), ..next })
                    &&& r == PhaseChange::Recompute
                }
                &&& on && c < 240 ==> {
                    &&& *final(clock_count) == c
                    &&& *final(self) == p
                    &&& r == PhaseChange::Keep
                }
                &&& !on ==> {
                    &&& *final(clock_count) == *old(clock_count)
                    &&& *final(self) == (Pulse { current_volume: 0, ..p })
                    &&& r == PhaseChange::Silence
                }
                &&& final(volume_buf)@ == old(volume_buf)@.push(final(self).current_volume)
                &&& final(duty_buf)@ == old(duty_buf)@.push(p.duty)
            }),
    {
        let r;
        if self.is_signal_enable(&is_enable) {
            *clock_count += 1;
            if *clock_count >= 240 {
                *clock_count -= 240;
                self.frame_counter += 1;
                match frame_counter.mode {
                    FrameMode::_4STEP => self.update_4step_frame(),
                    FrameMode::_5STEP => self.update_5step_frame(),
                }
                self.current_volume = self.get_volume();
                r = PhaseChange::Recompute;
            } else {
                r = PhaseChange::Keep;
            }
        } else {
            self.current_volume = 0;
            r = PhaseChange::Silence;
        };
        volume_buf.push(self.current_volume);
        duty_buf.push(self.duty);
        r
    }

    /// One audio clock of the channel as the emulator drives its sound
    /// output, see `pulse_audio_ticked`: while the channel plays, the
    /// output's clock counts up, and every envelope count of clocks the
    /// channel takes an envelope step (unless its counter is halted) and
    /// its output volume is refreshed.
    pub fn audio_tick(
        &mut self,
        frame_counter: &FrameCounter,
        is_enable: &mut bool,
        clock_count: &mut u16,
    ) -> (r: PhaseChange)
        requires
            old(self).wf(),
            pulse_sounds(*old(self), *old(is_enable)) ==> *old(clock_count) < u16::MAX,
            pulse_sounds(*old(self), *old(is_enable)) && *old(clock_count) + 1 >= envelope_count(
                frame_counter.mode,
            ) && !old(self).is_loop_envelope_and_counter_halt
                ==> old(self).envelope_and_liner_counter < u8::MAX,
        ensures
            final(self).wf(),
            (*final(self), *final(is_enable), *final(clock_count), r) == pulse_audio_ticked(
                *old(self),
                frame_counter.mode,
                *old(is_enable),
                *old(clock_count),
            ),
    {
        let envelope_count = frame_counter.get_envelop_count() as u16;
        if *is_enable && self.length_counter > 0 && self.timer >= 8 {
            *clock_count += 1;
            if *clock_count >= envelope_count {
                *clock_count -= envelope_count;
                if !self.is_loop_envelope_and_counter_halt {
                    self.envelope_and_liner_counter += 1;
                    let last: u8 = match frame_counter.mode {
                        FrameMode::_4STEP => 4,
                        FrameMode::_5STEP => 5,
                    };
                    if self.envelope_and_liner_counter == 2 || self.envelope_and_liner_counter
                        == last {
                        self.sweep.update(&mut self.timer);
                    }
                    if self.envelope_and_liner_counter > last {
                        self.envelope_and_liner_counter = 0;
                        if self.length_counter == 0 {
                            self.length_counter = 0;
                            *is_enable = false;
                        } else {
                            self.length_counter -= 1;
                        }
                    }
                }
                self.current_volume = self.get_volume();
                return PhaseChange::Recompute;
            }
            return PhaseChange::Keep;
        }
        self.current_volume = 0;
        PhaseChange::Silence
    }
}

/// The channel sounds on the audio output: it is enabled, its length
/// counter runs and its timer period is at least 8.
pub open spec fn pulse_sounds(p: Pulse, enabled: bool) -> bool {
    enabled && p.length_counter > 0 && p.timer >= 8
}

/// Audio clocks per envelope step: 60 in four-step mode, 48 in five-step
/// mode.
pub open spec fn envelope_count(mode: FrameMode) -> int {
    if mode == FrameMode::_4STEP {
        60
    } else {
        48
    }
}

/// An envelope step of a pulse channel driven by the audio output: the
/// step counter counts up; at step 2 and at the last step of the mode (4
/// or 5) the sweep moves the timer; past the last step the counter starts
/// over and the length counter counts down, the channel turning off when
/// it is already zero.  Gives the channel and whether it stays enabled.
pub open spec fn pulse_audio_step(p: Pulse, mode: FrameMode, enabled: bool) -> (Pulse, bool) {
    let k = p.envelope_and_liner_counter + 1;
    let last = if mode == FrameMode::_4STEP {
        4int
    } else {
        5int
    };
    let p1 = Pulse { envelope_and_liner_counter: k as u8, ..p };
    let p2 = if k == 2 || k == last {
        Pulse { timer: swept_timer(p1.sweep, p1.timer), sweep: sweep_divided(p1.sweep), ..p1 }
    } else {
        p1
    };
    if k > last {
        if p2.length_counter == 0 {
            (Pulse { envelope_and_liner_counter: 0, length_counter: 0, ..p2 }, false)
        } else {
            (
                Pulse {
                    envelope_and_liner_counter: 0,
                    length_counter: (p2.length_counter - 1) as u16,
                    ..p2
                },
                enabled,
            )
        }
    } else {
        (p2, enabled)
    }
}

/// One audio clock of a pulse channel: the channel, whether it stays
/// enabled, the output's clock, and what happens to the waveform phase.
/// A channel that is enabled, with its length counter running and a timer
/// period of at least 8, plays: the clock counts up, and when it reaches
/// the envelope count it drops by that count, the channel takes an
/// envelope step unless its counter is halted, the output volume is
/// refreshed and the phase is recomputed.  A silent channel outputs volume
/// 0.
pub open spec fn pulse_audio_ticked(p: Pulse, mode: FrameMode, enabled: bool, clock: u16) -> (
    Pulse,
    bool,
    u16,
    PhaseChange,
) {
    if pulse_sounds(p, enabled) {
        let c = clock + 1;
        if c >= envelope_count(mode) {
            let (p1, en) = if !p.is_loop_envelope_and_counter_halt {
                pulse_audio_step(p, mode, enabled)
            } else {
                (p, enabled)
            };
            (
                Pulse { current_volume: pulse_volume(p1), ..p1 },
                en,
                (c - envelope_count(mode)) as u16,
                PhaseChange::Recompute,
            )
        } else {
            (p, enabled, c as u16, PhaseChange::Keep)
        }
    } else {
        (Pulse { current_volume: 0, ..p }, enabled, clock, PhaseChange::Silence)
    }
}

/// The channel enable register.
#[derive(Debug, Clone, Copy, PartialEq, Eq, Structural)]
pub struct ChannelController {
    pub enable_pulse1: bool,
    pub enable_pulse2: bool,
    pub enable_triangle: bool,
    pub enable_noise: bool,
    pub enable_dmc: bool,
}

/// The channels that a write of `data` enables, one bit each.
pub open spec fn channels_from_byte(data: u8) -> ChannelController {
    ChannelController {
        enable_pulse1: data & 0x01 != 0,
        enable_pulse2: data & 0x02 != 0,
        enable_triangle: data & 0x04 != 0,
        enable_noise: data & 0x08 != 0,
        enable_dmc: data & 0x10 != 0,
    }
}

/// The byte that the enable register reads as.
pub open spec fn channels_to_byte(c: ChannelController) -> u8 {
    ((if c.enable_pulse1 { 1int } else { 0 }) + (if c.enable_pulse2 { 2int } else { 0 }) + (
    if c.enable_triangle {
        4int
    } else {
        0
    }) + (if c.enable_noise { 8int } else { 0 }) + (if c.enable_dmc { 16int } else { 0 })) as u8
}

impl Default for ChannelController {
    fn default() -> (r: Self)
        ensures
            r == channels_from_byte(0),
    {
        Self::new()
    }
}

impl ChannelController {
    pub fn new() -> (r: Self)
        ensures
            r == channels_from_byte(0),
    {
        proof {
            crate::util::lemma_masked(0, 0x01);
            crate::util::lemma_masked(0, 0x02);
            crate::util::lemma_masked(0, 0x04);
            crate::util::lemma_masked(0, 0x08);
            crate::util::lemma_masked(0, 0x10);
        }
        Self {
            enable_pulse1: false,
            enable_pulse2: false,
            enable_triangle: false,
            enable_noise: false,
            enable_dmc: false,
        }
    }

    pub fn addr(&mut self) -> (r: u8)
        ensures
            r == channels_to_byte(*old(self)),
            *final(self) == *old(self),
    {
        let mut data: u8 = 0;
        let (a, b, c, d, e) = (
            self.enable_pulse1 as u8,
            self.enable_pulse2 as u8,
            self.enable_triangle as u8,
            self.enable_noise as u8,
            self.enable_dmc as u8,
        );
        assert(b << 1u8 == b * 2 && c << 2u8 == c * 4 && d << 3u8 == d * 8 && e << 4u8 == e * 16)
            by (bit_vector)
            requires
                b < 2 && c < 2 && d < 2 && e < 2,
        ;
        data += self.enable_pulse1 as u8;
        data += (self.enable_pulse2 as u8) << 1;
        data += (self.enable_triangle as u8) << 2;
        data += (self.enable_noise as u8) << 3;
        data += (self.enable_dmc as u8) << 4;

        data
    }

    pub fn set(&mut self, data: u8)
        ensures
            *final(self) == channels_from_byte(data),
    {
        self.enable_pulse1 = (data & 0b00000001) != 0;
        self.enable_pulse2 = (data & 0b00000010) != 0;
        self.enable_triangle = (data & 0b00000100) != 0;
        self.enable_noise = (data & 0b00001000) != 0;
        self.enable_dmc = (data & 0b00010000) != 0;
    }
}

/// Writing the enable register and reading it back keeps the low five bits.
pub proof fn lemma_channels_write_then_read(d: u8)
    ensures
        channels_to_byte(channels_from_byte(d)) == d & 0x1F,
{
    assert(((if d & 0x01 != 0 { 1int } else { 0 }) + (if d & 0x02 != 0 { 2int } else { 0 }) + (
    if d & 0x04 != 0 {
        4int
    } else {
        0
    }) + (if d & 0x08 != 0 { 8int } else { 0 }) + (if d & 0x10 != 0 { 16int } else { 0 })) as u8
        == d & 0x1F) by (bit_vector);
}

/// The frame sequencer mode.
#[derive(Debug, Clone, Copy, PartialEq, Eq, Structural)]
pub enum FrameMode {
    _4STEP,
    _5STEP,
}

/// The frame counter register.
#[derive(Debug, Clone, Copy, PartialEq, Eq, Structural)]
pub struct FrameCounter {
    pub mode: FrameMode,
    pub irq: bool,
}

impl Default for FrameCounter {
    fn default() -> (r: Self)
        ensures
            r == (FrameCounter { mode: FrameMode::_4STEP, irq: false }),
    {
        Self::new()
    }
}

impl FrameCounter {
    pub fn new() -> (r: Self)
        ensures
            r == (FrameCounter { mode: FrameMode::_4STEP, irq: false }),
    {
        Self { mode: FrameMode::_4STEP, irq: false }
    }

    /// Bit 7 selects the five-step mode, bit 6 is the interrupt flag.
    pub fn set(&mut self, data: u8)
        ensures
            final(self).mode == (if data & 0x80 != 0 { FrameMode::_5STEP } else { FrameMode::_4STEP }),
            final(self).irq == (data & 0x40 != 0),
    {
        let m = (data & 0b10000000) >> 7;
        assert(((data & 0x80) >> 7u8 == 0 || (data & 0x80) >> 7u8 == 1) && ((data & 0x80) >> 7u8
            == 0 <==> data & 0x80 == 0) && (((data & 0x40) >> 6u8 != 0) <==> data & 0x40 != 0))
            by (bit_vector);
        self.mode = match m {
            0 => FrameMode::_4STEP,
            _ => FrameMode::_5STEP,
        };

        self.irq = ((data & 0b01000000) >> 6) != 0;
    }

    /// Frame clocks per envelope step: 60 in four-step mode, 48 in five-step mode.
    pub fn get_envelop_count(&self) -> (r: u8)
        ensures
            r == (if self.mode == FrameMode::_4STEP { 60u8 } else { 48u8 }),
    {
        match self.mode {
            FrameMode::_4STEP => 60,
            FrameMode::_5STEP => 48,
        }
    }
}

/// The audio processing unit.
#[derive(Debug, Clone)]
pub struct APU {
    pub pulse1: Pulse,
    pub pulse2: Pulse,
    pub triangle: Triangle,
    pub noise: Noise,
    pub channel_controller: ChannelController,
    pub frame_counter: FrameCounter,
}

impl Default for APU {
    fn default() -> (r: Self)
        ensures
            r.wf(),
    {
        Self::new()
    }
}

impl APU {
    pub open spec fn wf(&self) -> bool {
        self.pulse1.wf() && self.pulse2.wf() && self.triangle.wf()
    }

    /// The length counter load value for a five-bit index.
    pub fn length_counter(index: u8) -> (r: u16)
        requires
            index < 32,
        ensures
            r == length_counter_table()[index as int],
    {
        let table: [u16; 0x20] = [
            10, 254, 20, 2, 40, 4, 80, 6, 160, 8, 60, 10, 14, 12, 26, 14,  // 00-0F
            12, 16, 24, 18, 48, 20, 96, 22, 192, 24, 72, 26, 16, 28, 32, 30,  // 10-1F
        ];
        assert(table@ =~= length_counter_table());
        table[index as usize]
    }

    pub fn new() -> (r: Self)
        ensures
            r.wf(),
    {
        let pulse1 = Pulse::default();
        let pulse2 = Pulse::default();
        let triangle = Triangle::default();
        let noise = Noise::default();
        let channel_controller = ChannelController::default();
        let frame_counter = FrameCounter::default();

        Self { pulse1, pulse2, triangle, noise, channel_controller, frame_counter }
    }
}

/// The triangle channel.  Its waveform level, which the audio output
/// scales, moves in whole steps between -16 and 16 and is kept here as an
/// integer.
#[derive(Debug, Clone)]
pub struct Triangle {
    pub timer: u16,
    pub current_timer: u16,
    pub frame_counter: u8,
    pub clock_count: u16,
    pub controll_flag: bool,
    pub length_counter_halt_or_linear_counter_control: bool,
    pub linear_counter_load: u8,
    pub linear_counter: u8,
    pub linear_phase: i8,
    pub linear_inc_phase: bool,
    pub length_counter_index: u8,
    pub length_counter: u16,
    pub is_loop_envelope_and_counter_halt: bool,
}

impl Default for Triangle {
    fn default() -> (r: Self)
        ensures
            r.wf(),
            r.linear_phase == 0,
            r.linear_inc_phase,
    {
        Self::new()
    }
}

/// The triangle after a waveform step: the level climbs to 16, then falls
/// to -16, then climbs again; the step that reaches a bound turns.
pub open spec fn triangle_phase_stepped(t: Triangle) -> Triangle {
    if t.linear_inc_phase {
        if t.linear_phase < 16 {
            Triangle { linear_phase: (t.linear_phase + 1) as i8, ..t }
        } else {
            Triangle { linear_inc_phase: false, ..t }
        }
    } else {
        if t.linear_phase > -16 {
            Triangle { linear_phase: (t.linear_phase - 1) as i8, ..t }
        } else {
            Triangle { linear_inc_phase: true, ..t }
        }
    }
}

/// The triangle after a linear counter clock: reloaded while the control
/// flag is set, then counted down with a waveform step while above zero.
pub open spec fn triangle_linear_counted(t: Triangle) -> Triangle {
    let t1 = if t.length_counter_halt_or_linear_counter_control {
        Triangle { linear_counter: t.linear_counter_load, ..t }
    } else {
        t
    };
    if t1.linear_counter > 0 {
        triangle_phase_stepped(Triangle { linear_counter: (t1.linear_counter - 1) as u8, ..t1 })
    } else {
        t1
    }
}

/// The triangle after a length counter clock: counts down, stopping at zero.
pub open spec fn triangle_length_counted(t: Triangle) -> Triangle {
    Triangle {
        length_counter: if t.length_counter > 0 {
            (t.length_counter - 1) as u16
        } else {
            0
        },
        ..t
    }
}

/// The triangle after a frame step in five-step mode.
pub open spec fn triangle_5step(t: Triangle) -> Triangle {
    let f = t.frame_counter;
    let t1 = if f == 39 || f == 78 || f == 117 || f == 156 || f == 192 {
        triangle_linear_counted(t)
    } else {
        t
    };
    let t2 = if f == 78 || f == 192 {
        triangle_length_counted(t1)
    } else {
        t1
    };
    if f >= 192 {
        Triangle { frame_counter: 0, ..t2 }
    } else {
        t2
    }
}

/// The triangle after a frame step in four-step mode.
pub open spec fn triangle_4step(t: Triangle) -> Triangle {
    let f = t.frame_counter;
    let t1 = if f == 60 || f == 120 || f == 180 || f == 240 {
        triangle_linear_counted(t)
    } else {
        t
    };
    let t2 = if f == 120 || f == 240 {
        triangle_length_counted(t1)
    } else {
        t1
    };
    if f >= 240 {
        Triangle { frame_counter: 0, ..t2 }
    } else {
        t2
    }
}

impl Triangle {
    /// The waveform level lies in -16..=16.
    pub open spec fn wf(&self) -> bool {
        -16 <= self.linear_phase <= 16
    }

    pub fn new() -> (r: Self)
        ensures
            r.wf(),
            r.linear_phase == 0,
            r.linear_inc_phase,
    {
        Self {
            timer: 0,
            current_timer: 0,
            frame_counter: 0,
            clock_count: 0,
            controll_flag: false,
            length_counter_halt_or_linear_counter_control: false,
            linear_counter_load: 0,
            linear_counter: 0,
            linear_phase: 0,
            linear_inc_phase: true,
            length_counter_index: 0,
            length_counter: 0,
            is_loop_envelope_and_counter_halt: false,
        }
    }

    pub fn update_liner_phase(&mut self)
        requires
            old(self).wf(),
        ensures
            *final(self) == triangle_phase_stepped(*old(self)),
            final(self).wf(),
    {
        match self.linear_inc_phase {
            true => {
                if self.linear_phase < 16 {
                    self.linear_phase += 1;
                } else {
                    self.linear_inc_phase = false;
                }
            },
            false => {
                if self.linear_phase > -16 {
                    self.linear_phase -= 1;
                } else {
                    self.linear_inc_phase = true;
                }
            },
        }
    }

    pub fn update_linear_counter(&mut self)
        requires
            old(self).wf(),
        ensures
            *final(self) == triangle_linear_counted(*old(self)),
            final(self).wf(),
    {
        if self.length_counter_halt_or_linear_counter_control {
            self.linear_counter = self.linear_counter_load;
        }
        if self.linear_counter > 0 {
            self.linear_counter -= 1;
            self.update_liner_phase();
        }
    }

    pub fn update_length_counter(&mut self)
        ensures
            *final(self) == triangle_length_counted(*old(self)),
    {
        if self.length_counter > 0 {
            self.length_counter -= 1
        }
    }

    pub fn update_5step_frame(&mut self)
        requires
            old(self).wf(),
        ensures
            *final(self) == triangle_5step(*old(self)),
            final(self).wf(),
    {
        if self.frame_counter == 39 || self.frame_counter == 78 || self.frame_counter == 117
            || self.frame_counter == 156 || self.frame_counter == 192 {
            self.update_linear_counter();
        }
        if self.frame_counter == 78 || self.frame_counter == 192 {
            self.update_length_counter();
        }
        if self.frame_counter >= 192 {
            self.frame_counter = 0;
        }
    }

    pub fn update_4step_frame(&mut self)
        requires
            old(self).wf(),
        ensures
            *final(self) == triangle_4step(*old(self)),
            final(self).wf(),
    {
        if self.frame_counter == 60 || self.frame_counter == 120 || self.frame_counter == 180
            || self.frame_counter == 240 {
            self.update_linear_counter();
        }
        if self.frame_counter == 120 || self.frame_counter == 240 {
            self.update_length_counter();
        }
        if self.frame_counter >= 240 {
            self.frame_counter = 0;
        }
    }

    /// The channel sounds: enabled, with its length counter running and a
    /// timer period of at least 8.
    pub fn is_signal_enable(&self, is_enable: &bool) -> (r: bool)
        ensures
            r == (*is_enable && self.length_counter > 0 && self.current_timer >= 8),
    {
        *is_enable && self.length_counter > 0 && self.current_timer >= 8
    }

    /// One channel clock.  When the channel sounds, the output's clock
    /// counts up and every 240 clocks the channel takes a frame step; the
    /// phase increment is recomputed.  A silent channel's level drops to 0.
    /// The output's level buffer takes the level.
    pub fn update(
        &mut self,
        frame_counter: &FrameCounter,
        is_enable: &bool,
        clock_count: &mut u16,
        level_buf: &mut Vec<i8>,
    ) -> (r: PhaseChange)
        requires
            old(self).wf(),
            old(self).frame_counter < u8::MAX,
            *old(clock_count) < u16::MAX,
        ensures
            final(self).wf(),
            ({
                let t = *old(self);
                let on = *is_enable && t.length_counter > 0 && t.current_timer >= 8;
                let c = *old(clock_count) + 1;
                let stepped = Triangle { frame_counter: (t.frame_counter + 1) as u8, ..t };
                &&& on && c >= 240 ==> {
                    &&& *final(clock_count) == c - 240
                    &&& *final(self) == (if frame_counter.mode == FrameMode::_4STEP {
                        triangle_4step(stepped)
                    } else {
                        triangle_5step(stepped)
                    })
                }
                &&& on && c < 240 ==> *final(clock_count) == c && *final(self) == t
                &&& on ==> r == PhaseChange::Recompute
                &&& !on ==> {
                    &&& *final(clock_count) == *old(clock_count)
                    &&& *final(self) == (Triangle { linear_phase: 0, ..t })
                    &&& r == PhaseChange::Keep
                }
                &&& final(level_buf)@ == old(level_buf)@.push(final(self).linear_phase)
            }),
    {
        let r;
        if self.is_signal_enable(&is_enable) {
            *clock_count += 1;
            if *clock_count >= 240 {
                *clock_count -= 240;
                self.frame_counter += 1;
                match frame_counter.mode {
                    FrameMode::_4STEP => self.update_4step_frame(),
                    FrameMode::_5STEP => self.update_5step_frame(),
                }
            }
            r = PhaseChange::Recompute;
        } else {
            self.linear_phase = 0;
            r = PhaseChange::Keep;
        };
        level_buf.push(self.linear_phase);
        r
    }

    /// Writes register `addr` (0, 2 or 3) of the channel.
    pub fn set(&mut self, addr: u8, data: u8)
        requires
            addr == 0 || addr == 2 || addr == 3,
        ensures
            *final(self) == triangle_written(*old(self), addr, data),
    {
        match addr {
            0 => {
                self.length_counter_halt_or_linear_counter_control = (data & 0b10000000) != 0;
                self.linear_counter_load = data & 0b01111111;
            },
            2 => {
                self.timer &= 0x700;
                self.timer |= data as u16;
                self.current_timer = self.timer;
            },
            _ => {
                self.timer &= 0xFF;
                self.timer |= (data as u16 & 0b00000111) << 8;
                self.current_timer = self.timer;
                self.length_counter_index = (data & 0b11111000) >> 3;
                proof {
                    crate::util::lemma_byte_fields(data);
                }
                self.length_counter = APU::length_counter(self.length_counter_index);
                self.length_counter_halt_or_linear_counter_control = true;
            },
        }
    }
}

} // verus!
