pub mod cpu_map;
pub mod ppu;

use vstd::prelude::*;

use crate::apu::{
    channels_from_byte, channels_to_byte, pulse_register_byte, pulse_written, sweep_from_byte,
    triangle_written, Pulse, APU,
};
use crate::apu::noise::noise_written;
use crate::bus::cpu_map::{
    cpu_map_read, cpu_map_readable, cpu_map_writable, cpu_map_written, ppu_register_written,
    status_to_byte, lemma_cells_ignore_registers, CpuMap, CpuMapView, InternalRegisters, PpuBuffer, PpuRegister,
};
use crate::nes::{mirroring_of, Nes};
use crate::ppu::mapper::{ppu_map_read, ppu_map_written, PpuMapView};
use crate::ppu::oam::SpriteInfo;
use crate::ppu::PPU;
use vstd::arithmetic::div_mod::{
    lemma_div_denominator, lemma_div_is_ordered_by_denominator, lemma_div_pos_is_pos,
};
use vstd::arithmetic::power::lemma_pow0;
use vstd::arithmetic::power2::{lemma_pow2_pos, lemma_pow2_unfold, pow2};

verus! {

/// A device that the CPU reads and writes by address.
pub trait Mapper {
    /// Addresses whose read the device answers.
    spec fn readable(&self, addr: u16) -> bool;

    /// Addresses whose write the device takes.
    spec fn writable(&self, addr: u16) -> bool;

    fn addr(&mut self, addr: u16) -> u8
        requires
            old(self).readable(addr),
    ;

    fn set(&mut self, addr: u16, data: u8)
        requires
            old(self).writable(addr),
    ;
}

/// Everything the CPU bus connects, as plain values.
#[verifier::ext_equal]
pub struct BusView {
    pub cpu: CpuMapView,
    pub regs: PpuRegister,
    pub vram: PpuMapView,
    pub primary_oam: Seq<SpriteInfo>,
    pub secondary_oam: Seq<SpriteInfo>,
    pub oam_buf: Seq<u8>,
    pub apu: APU,
    pub controller_polling_data: u16,
    pub controller_0_polled_data: u8,
    pub controller_1_polled_data: u8,
}

/// The CPU bus: the CPU memory map, the PPU, the APU and the controllers.
#[derive(Debug, Clone)]
pub struct Bus {
    pub cpu_bus: CpuMap,
    pub ppu: PPU,
    pub apu: APU,
    pub controller_polling_data: u16,
    pub controller_0_polled_data: u8,
    pub controller_1_polled_data: u8,
}

impl View for Bus {
    type V = BusView;

    open spec fn view(&self) -> BusView {
        BusView {
            cpu: self.cpu_bus@,
            regs: self.cpu_bus.ppu_register,
            vram: self.ppu.map@,
            primary_oam: self.ppu.primary_oam.sprite_infos@,
            secondary_oam: self.ppu.secondary_oam.sprite_infos@,
            oam_buf: self.ppu.oam_buf@,
            apu: self.apu,
            controller_polling_data: self.controller_polling_data,
            controller_0_polled_data: self.controller_0_polled_data,
            controller_1_polled_data: self.controller_1_polled_data,
        }
    }
}

/// How far a PPUDATA access moves the VRAM address.
pub open spec fn vram_step(regs: PpuRegister) -> int {
    if regs.ppu_ctrl.vram_increment {
        32
    } else {
        1
    }
}

/// The PPU registers after a PPUDATA access moved the VRAM address on.
pub open spec fn regs_vram_stepped(regs: PpuRegister) -> PpuRegister {
    PpuRegister {
        internal_registers: InternalRegisters {
            current_vram: (regs.internal_registers.current_vram + vram_step(regs)) as u16,
            ..regs.internal_registers
        },
        ..regs
    }
}

/// Addresses whose read the bus answers: PPUSCROLL and PPUADDR are not
/// readable, and PPUDATA only while the VRAM address is within the PPU map.
pub open spec fn bus_readable(v: BusView, a: u16) -> bool {
    if a == 0x2005 || a == 0x2006 {
        false
    } else if a == 0x2007 {
        v.regs.internal_registers.current_vram < 0x4000
    } else {
        true
    }
}

/// Addresses whose write the bus takes: not the last I/O byte 0x401F, and
/// PPUDATA only while moving the VRAM address on does not overflow.
pub open spec fn bus_writable(v: BusView, a: u16) -> bool {
    if a == 0x401F {
        false
    } else if a == 0x2007 {
        v.regs.internal_registers.current_vram + vram_step(v.regs) <= u16::MAX
    } else {
        true
    }
}

/// The byte that a CPU read of `a` gives.
pub open spec fn bus_read_value(v: BusView, a: u16) -> u8 {
    if a == 0x2007 {
        v.regs.ppu_buffer.buffer
    } else if 0x4000 <= a <= 0x4003 {
        pulse_register_byte(v.apu.pulse1, (a - 0x4000) as u8)
    } else if 0x4004 <= a <= 0x4007 {
        pulse_register_byte(v.apu.pulse2, (a - 0x4004) as u8)
    } else if 0x4008 <= a <= 0x4013 {
        0
    } else if a == 0x4015 {
        channels_to_byte(v.apu.channel_controller)
    } else if a == 0x4016 {
        v.controller_0_polled_data & 1
    } else if a == 0x4017 {
        v.controller_1_polled_data & 1
    } else {
        cpu_map_read(v.cpu, v.regs, a)
    }
}

/// The bus after a CPU read of `a`: reading PPUSTATUS clears the write
/// latch; reading PPUDATA moves the VRAM address on and refills the read
/// buffer from the old address; reading a controller port shifts its bits.
pub open spec fn bus_after_read(v: BusView, a: u16) -> BusView {
    if a == 0x2002 {
        BusView {
            regs: PpuRegister {
                internal_registers: InternalRegisters {
                    latch_flag: false,
                    ..v.regs.internal_registers
                },
                ..v.regs
            },
            ..v
        }
    } else if a == 0x2007 {
        let fetched = ppu_map_read(v.vram, v.regs.internal_registers.current_vram);
        BusView {
            regs: PpuRegister {
                ppu_buffer: PpuBuffer { buffer: fetched, vram_memory: fetched },
                ..regs_vram_stepped(v.regs)
            },
            ..v
        }
    } else if a == 0x4016 {
        BusView { controller_0_polled_data: v.controller_0_polled_data >> 1, ..v }
    } else if a == 0x4017 {
        BusView { controller_1_polled_data: v.controller_1_polled_data >> 1, ..v }
    } else {
        v
    }
}

/// The APU and controller state after a CPU write of `d` to `a` in
/// 0x4000..=0x4017 (but 0x4014).
pub open spec fn io_written(v: BusView, a: u16, d: u8) -> BusView {
    let apu = v.apu;
    if a == 0x4000 || a == 0x4002 || a == 0x4003 {
        BusView { apu: APU { pulse1: pulse_written(apu.pulse1, (a - 0x4000) as u8, d), ..apu }, ..v }
    } else if a == 0x4001 {
        BusView {
            apu: APU { pulse1: Pulse { sweep: sweep_from_byte(d), ..apu.pulse1 }, ..apu },
            ..v
        }
    } else if a == 0x4004 || a == 0x4006 || a == 0x4007 {
        BusView { apu: APU { pulse2: pulse_written(apu.pulse2, (a - 0x4004) as u8, d), ..apu }, ..v }
    } else if a == 0x4005 {
        BusView {
            apu: APU { pulse2: Pulse { sweep: sweep_from_byte(d), ..apu.pulse2 }, ..apu },
            ..v
        }
    } else if a == 0x4008 || a == 0x400A || a == 0x400B {
        BusView {
            apu: APU { triangle: triangle_written(apu.triangle, (a - 0x4008) as u8, d), ..apu },
            ..v
        }
    } else if a == 0x400C || a == 0x400E || a == 0x400F {
        BusView { apu: APU { noise: noise_written(apu.noise, (a - 0x400C) as u8, d), ..apu }, ..v }
    } else if a == 0x4015 {
        BusView { apu: APU { channel_controller: channels_from_byte(d), ..apu }, ..v }
    } else if a == 0x4016 {
        if d % 2 == 1 {
            BusView {
                controller_0_polled_data: (v.controller_polling_data % 256) as u8,
                controller_1_polled_data: (v.controller_polling_data / 256) as u8,
                ..v
            }
        } else {
            BusView { controller_polling_data: 0, ..v }
        }
    } else if a == 0x4017 {
        BusView {
            apu: APU {
                frame_counter: crate::apu::FrameCounter {
                    mode: if d & 0x80 != 0 {
                        crate::apu::FrameMode::_5STEP
                    } else {
                        crate::apu::FrameMode::_4STEP
                    },
                    irq: d & 0x40 != 0,
                },
                ..apu
            },
            ..v
        }
    } else {
        v
    }
}

/// The bus after a CPU write of `d` to `a`.  PPUDATA stores into the PPU map
/// at the VRAM address and moves it on; the sound and controller registers
/// go to the APU and the controllers; every other address goes to the CPU
/// memory map.
pub open spec fn bus_written(v: BusView, a: u16, d: u8) -> BusView {
    if a == 0x2007 {
        BusView {
            vram: ppu_map_written(v.vram, v.regs.internal_registers.current_vram, d),
            regs: regs_vram_stepped(v.regs),
            ..v
        }
    } else if 0x4000 <= a <= 0x4017 && a != 0x4014 {
        io_written(v, a, d)
    } else {
        BusView {
            cpu: cpu_map_written(v.cpu, a, d),
            regs: if 0x2000 <= a <= 0x2006 {
                ppu_register_written(v.regs, a, d)
            } else {
                v.regs
            },
            ..v
        }
    }
}

impl Bus {
    pub open spec fn wf(&self) -> bool {
        self.cpu_bus.wf() && self.apu.wf()
    }

    pub fn new(nes: &Nes) -> (r: Self)
        ensures
            r.wf(),
            r@.vram.type_of_mirroring == mirroring_of(nes.header.flags6),
            forall|i: int| 0 <= i < 0x10000 ==> r@.cpu.mem[i] == 0,
            forall|i: int| 0 <= i < 0x4000 ==> r@.vram.mem[i] == 0,
            r@.regs == PpuRegister::initial(),
            r.controller_polling_data == 0,
            r.controller_0_polled_data == 0,
            r.controller_1_polled_data == 0,
    {
        Self {
            cpu_bus: CpuMap::default(),
            ppu: PPU::new(nes),
            apu: APU::default(),
            controller_polling_data: 0,
            controller_0_polled_data: 0,
            controller_1_polled_data: 0,
        }
    }
}

impl Bus {
    /// Reads the sound and controller registers 0x4000..=0x4017 (but 0x4014).
    fn io_addr(&mut self, addr: u16) -> (r: u8)
        requires
            old(self).wf(),
            0x4000 <= addr <= 0x4017,
            addr != 0x4014,
        ensures
            r == bus_read_value(old(self)@, addr),
            final(self)@ == bus_after_read(old(self)@, addr),
            final(self).wf(),
    {
        match addr {
            0x4000 => self.apu.pulse1.addr(0),
            0x4001 => self.apu.pulse1.addr(1),
            0x4002 => self.apu.pulse1.addr(2),
            0x4003 => self.apu.pulse1.addr(3),
            0x4004 => self.apu.pulse2.addr(0),
            0x4005 => self.apu.pulse2.sweep_addr(),
            0x4006 => self.apu.pulse2.addr(2),
            0x4007 => self.apu.pulse2.addr(3),
            0x4008..=0x4013 => 0,
            0x4015 => self.apu.channel_controller.addr(),
            0x4016 => {
                let n = self.controller_0_polled_data & 0x1;
                self.controller_0_polled_data >>= 0x1;
                n
            },
            _ => {
                let n = self.controller_1_polled_data & 0x1;
                self.controller_1_polled_data >>= 0x1;
                n
            },
        }
    }

    /// Reads PPUDATA: gives the read buffer, refills it from the VRAM
    /// address and moves the address on.
    fn ppu_data_addr(&mut self) -> (r: u8)
        requires
            old(self).wf(),
            bus_readable(old(self)@, 0x2007),
        ensures
            r == bus_read_value(old(self)@, 0x2007),
            final(self)@ == bus_after_read(old(self)@, 0x2007),
            final(self).wf(),
    {
        let ghost before = self.cpu_bus;
        let addr = self.cpu_bus.ppu_register.internal_registers.current_vram;
        self.cpu_bus.ppu_register.constant_inc_vram();
        let fetched = self.ppu.map.addr(addr);
        self.cpu_bus.ppu_register.ppu_buffer.set(fetched);
        let r = self.cpu_bus.ppu_register.ppu_buffer.addr();
        proof {
            lemma_cells_ignore_registers(before, self.cpu_bus);
        }
        r
    }

    /// Writes the sound and controller registers 0x4000..=0x4017 (but 0x4014).
    fn io_set(&mut self, addr: u16, data: u8)
        requires
            old(self).wf(),
            0x4000 <= addr <= 0x4017,
            addr != 0x4014,
        ensures
            final(self)@ == io_written(old(self)@, addr, data),
            final(self).wf(),
    {
        match addr {
            0x4000 => self.apu.pulse1.set(0, data),
            0x4001 => self.apu.pulse1.sweep_set(data),
            0x4002 => self.apu.pulse1.set(2, data),
            0x4003 => self.apu.pulse1.set(3, data),
            0x4004 => self.apu.pulse2.set(0, data),
            0x4005 => self.apu.pulse2.sweep_set(data),
            0x4006 => self.apu.pulse2.set(2, data),
            0x4007 => self.apu.pulse2.set(3, data),
            0x4008 => self.apu.triangle.set(0, data),
            0x4009 => (),
            0x400A => self.apu.triangle.set(2, data),
            0x400B => self.apu.triangle.set(3, data),
            0x400C => self.apu.noise.set(0, data),
            0x400D => (),
            0x400E => self.apu.noise.set(2, data),
            0x400F => self.apu.noise.set(3, data),
            0x4010..=0x4013 => (),
            0x4015 => self.apu.channel_controller.set(data),
            0x4016 => match data % 2 {
                1 => {
                    let polling_data = self.controller_polling_data;
                    self.controller_0_polled_data = (#[verifier::truncate] ((polling_data & 0xff)
                        as u8));
                    self.controller_1_polled_data = (#[verifier::truncate] (((polling_data & (0xff
                        << 8)) >> 8) as u8));
                    assert((polling_data & 0xff) as u8 == (polling_data % 256) as u8 && ((
                    polling_data & (0xffu16 << 8u16)) >> 8u16) as u8 == (polling_data / 256) as u8)
                        by (bit_vector);
                },
                _ => {
                    self.controller_polling_data = 0;
                },
            },
            _ => {
                self.apu.frame_counter.set(data);
            },
        };
    }

    /// Writes PPUDATA: stores into the PPU map at the VRAM address and moves
    /// the address on.
    fn ppu_data_set(&mut self, data: u8)
        requires
            old(self).wf(),
            bus_writable(old(self)@, 0x2007),
        ensures
            final(self)@ == bus_written(old(self)@, 0x2007, data),
            final(self).wf(),
    {
        let ghost before = self.cpu_bus;
        let addr = self.cpu_bus.ppu_register.internal_registers.current_vram;
        self.cpu_bus.ppu_register.constant_inc_vram();
        self.ppu.map.set(addr, data);
        proof {
            lemma_cells_ignore_registers(before, self.cpu_bus);
        }
    }
}

impl Mapper for Bus {
    open spec fn readable(&self, addr: u16) -> bool {
        self.wf() && bus_readable(self@, addr)
    }

    open spec fn writable(&self, addr: u16) -> bool {
        self.wf() && bus_writable(self@, addr)
    }

    fn addr(&mut self, addr: u16) -> (r: u8)
        ensures
            r == bus_read_value(old(self)@, addr),
            final(self)@ == bus_after_read(old(self)@, addr),
            final(self).wf(),
    {
        match addr {
            0x0000..=0x2001 | 0x2003..=0x2006 | 0x2008..=0x3FFF | 0x4014 | 0x4018..=0xFFFF => {
                self.cpu_bus.addr(addr)
            },
            0x2002 => {
                let ghost before = self.cpu_bus;
                self.cpu_bus.ppu_register.internal_registers.off_latch();
                proof {
                    lemma_cells_ignore_registers(before, self.cpu_bus);
                }
                self.cpu_bus.addr(addr)
            },
            0x2007 => self.ppu_data_addr(),
            _ => self.io_addr(addr),
        }
    }

    fn set(&mut self, addr: u16, data: u8)
        ensures
            final(self)@ == bus_written(old(self)@, addr, data),
            final(self).wf(),
    {
        match addr {
            0x0000..=0x2006 | 0x2008..=0x3FFF | 0x4014 | 0x4018..=0xFFFF => {
                self.cpu_bus.set(addr, data)
            },
            0x2007 => self.ppu_data_set(data),
            _ => self.io_set(addr, data),
        };
    }
}

/// The bus after `k` reads of the controller port `a`.
pub open spec fn port_reads(v: BusView, a: u16, k: nat) -> BusView
    decreases k,
{
    if k == 0 {
        v
    } else {
        bus_after_read(port_reads(v, a, (k - 1) as nat), a)
    }
}

/// Reading a controller port again and again gives the bits of its polled
/// byte one by one, lowest first, and 0 once the eight are used up: after
/// `k` reads the byte is shifted right by `k`, the next read gives its bit
/// `k`, and nothing else on the bus has changed.
pub proof fn lemma_pad_reads(v: BusView, k: nat)
    ensures
        port_reads(v, 0x4016, k) == (BusView {
            controller_0_polled_data: (v.controller_0_polled_data as int / pow2(k) as int) as u8,
            ..v
        }),
        bus_read_value(port_reads(v, 0x4016, k), 0x4016) == (v.controller_0_polled_data as int
            / pow2(k) as int) % 2,
        port_reads(v, 0x4017, k) == (BusView {
            controller_1_polled_data: (v.controller_1_polled_data as int / pow2(k) as int) as u8,
            ..v
        }),
        bus_read_value(port_reads(v, 0x4017, k), 0x4017) == (v.controller_1_polled_data as int
            / pow2(k) as int) % 2,
    decreases k,
{
    lemma_pow2_pos(k);
    if k == 0 {
        assert(pow2(0) == 1) by {
            lemma_pow0(2);
        }
    } else {
        let k1 = (k - 1) as nat;
        lemma_pad_reads(v, k1);
        lemma_pow2_pos(k1);
        lemma_pow2_unfold(k);
        let q0 = v.controller_0_polled_data as int / pow2(k1) as int;
        let q1 = v.controller_1_polled_data as int / pow2(k1) as int;
        assert(0 <= q0 <= v.controller_0_polled_data) by {
            lemma_div_pos_is_pos(v.controller_0_polled_data as int, pow2(k1) as int);
            lemma_div_is_ordered_by_denominator(v.controller_0_polled_data as int, 1, pow2(k1) as int);
        }
        assert(0 <= q1 <= v.controller_1_polled_data) by {
            lemma_div_pos_is_pos(v.controller_1_polled_data as int, pow2(k1) as int);
            lemma_div_is_ordered_by_denominator(v.controller_1_polled_data as int, 1, pow2(k1) as int);
        }
        crate::util::lemma_halve_byte(q0 as u8);
        crate::util::lemma_halve_byte(q1 as u8);
        lemma_div_denominator(v.controller_0_polled_data as int, pow2(k1) as int, 2);
        lemma_div_denominator(v.controller_1_polled_data as int, pow2(k1) as int, 2);
        assert(pow2(k1) * 2 == pow2(k));
    }
    let w0 = (v.controller_0_polled_data as int / pow2(k) as int);
    let w1 = (v.controller_1_polled_data as int / pow2(k) as int);
    assert(0 <= w0 <= v.controller_0_polled_data) by {
        lemma_div_pos_is_pos(v.controller_0_polled_data as int, pow2(k) as int);
        lemma_div_is_ordered_by_denominator(v.controller_0_polled_data as int, 1, pow2(k) as int);
    }
    assert(0 <= w1 <= v.controller_1_polled_data) by {
        lemma_div_pos_is_pos(v.controller_1_polled_data as int, pow2(k) as int);
        lemma_div_is_ordered_by_denominator(v.controller_1_polled_data as int, 1, pow2(k) as int);
    }
    crate::util::lemma_halve_byte(w0 as u8);
    crate::util::lemma_halve_byte(w1 as u8);
}

} // verus!
