use vstd::prelude::*;

use crate::bus::Mapper;

verus! {

/// A controller port as the CPU memory map holds it.
#[derive(Debug, Clone)]
pub struct Controller {
    pub d0: u8,
    pub d1: u8,
    pub d2: u8,
    pub d3: u8,
    pub d4: u8,
    pub open_bus: [u8; 0x0003],
}

impl Default for Controller {
    fn default() -> (r: Self)
        ensures
            r.spec_d0() == 0,
    {
        Self::new()
    }
}

impl Controller {
    /// The data line that a read of the port gives.
    pub closed spec fn spec_d0(&self) -> u8 {
        self.d0
    }

    pub fn new() -> (r: Self)
        ensures
            r.spec_d0() == 0,
    {
        Self { d0: 0, d1: 0, d2: 0, d3: 0, d4: 0, open_bus: [0;0x0003] }
    }
}

/// The PPU's internal scroll registers `v`, `t`, `x` and the write latch.
#[derive(Debug, Clone)]
pub struct InternalRegisters {
    pub current_vram: u16,
    pub temporary_vram: u16,
    pub x_scroll: u8,
    pub latch_flag: bool,
}

impl Default for InternalRegisters {
    fn default() -> (r: Self)
        ensures
            r == InternalRegisters::initial(),
    {
        Self::new()
    }
}

impl InternalRegisters {
    pub open spec fn initial() -> InternalRegisters {
        InternalRegisters { current_vram: 0, temporary_vram: 0, x_scroll: 0, latch_flag: false }
    }

    pub fn new() -> (r: Self)
        ensures
            r == InternalRegisters::initial(),
    {
        let current_vram: u16 = 0;
        let temporary_vram: u16 = 0;
        let x_scroll: u8 = 0;
        let latch_flag = false;

        Self { current_vram, temporary_vram, x_scroll, latch_flag }
    }

    pub fn on_latch(&mut self)
        ensures
            *final(self) == (InternalRegisters { latch_flag: true, ..*old(self) }),
    {
        self.latch_flag = true;
    }

    pub fn off_latch(&mut self)
        ensures
            *final(self) == (InternalRegisters { latch_flag: false, ..*old(self) }),
    {
        self.latch_flag = false;
    }

    pub fn toggle_latch(&mut self)
        ensures
            *final(self) == (InternalRegisters { latch_flag: !old(self).latch_flag, ..*old(self) }),
    {
        match self.latch_flag {
            true => self.off_latch(),
            false => self.on_latch(),
        }
    }

    pub fn inc_vram_addr(&mut self, data: u16)
        requires
            old(self).current_vram + data <= u16::MAX,
        ensures
            *final(self) == (InternalRegisters {
                current_vram: (old(self).current_vram + data) as u16,
                ..*old(self)
            }),
    {
        self.current_vram += data;
    }

    /// Loads `v` from `t`.
    pub fn copy_current_vram_to_tempolary_vram(&mut self)
        ensures
            *final(self) == (InternalRegisters {
                current_vram: old(self).temporary_vram,
                ..*old(self)
            }),
    {
        self.current_vram = self.temporary_vram;
    }
}

/// PPUCTRL.
#[derive(Debug, Clone)]
pub struct PpuCtrl {
    pub gen_nmi: bool,
    pub ppu_selector: bool,
    pub sprite_size: bool,
    pub bk_table_addr: bool,
    pub sprite_ptn_table_addr: bool,
    pub vram_increment: bool,
    pub base_name_table_addr: u8,
}

/// PPUCTRL after a write of `d`.
pub open spec fn ctrl_from_byte(d: u8) -> PpuCtrl {
    PpuCtrl {
        gen_nmi: d & 0x80 != 0,
        ppu_selector: d & 0x40 != 0,
        sprite_size: d & 0x20 != 0,
        bk_table_addr: d & 0x10 != 0,
        sprite_ptn_table_addr: d & 0x08 != 0,
        vram_increment: d & 0x04 != 0,
        base_name_table_addr: d & 0x03,
    }
}

/// `k` where the flag is set, else 0.
pub open spec fn bit_value(b: bool, k: int) -> int {
    if b {
        k
    } else {
        0
    }
}

/// The byte that PPUCTRL reads as.
pub open spec fn ctrl_to_byte(c: PpuCtrl) -> u8 {
    (bit_value(c.gen_nmi, 0x80) + bit_value(c.ppu_selector, 0x40) + bit_value(c.sprite_size, 0x20)
        + bit_value(c.bk_table_addr, 0x10) + bit_value(c.sprite_ptn_table_addr, 0x08) + bit_value(
        c.vram_increment,
        0x04,
    ) + c.base_name_table_addr) as u8
}

impl Default for PpuCtrl {
    fn default() -> (r: Self)
        ensures
            r == ctrl_from_byte(0),
    {
        Self::new()
    }
}

impl PpuCtrl {
    /// The base nametable number is one of 0..=3.
    pub open spec fn wf(&self) -> bool {
        self.base_name_table_addr < 4
    }

    pub fn new() -> (r: Self)
        ensures
            r == ctrl_from_byte(0),
    {
        proof {
            crate::util::lemma_masked(0, 0x80);
            crate::util::lemma_masked(0, 0x40);
            crate::util::lemma_masked(0, 0x20);
            crate::util::lemma_masked(0, 0x10);
            crate::util::lemma_masked(0, 0x08);
            crate::util::lemma_masked(0, 0x04);
            crate::util::lemma_masked(0, 0x03);
        }
        Self {
            gen_nmi: false,
            ppu_selector: false,
            sprite_size: false,
            bk_table_addr: false,
            sprite_ptn_table_addr: false,
            vram_increment: false,
            base_name_table_addr: 0,
        }
    }

    pub fn set(&mut self, data: u8)
        ensures
            *final(self) == ctrl_from_byte(data),
            final(self).wf(),
    {
        self.gen_nmi = (data & 0b10000000) != 0;
        self.ppu_selector = (data & 0b01000000) != 0;
        self.sprite_size = (data & 0b00100000) != 0;
        self.bk_table_addr = (data & 0b00010000) != 0;
        self.sprite_ptn_table_addr = (data & 0b00001000) != 0;
        self.vram_increment = (data & 0b00000100) != 0;
        self.base_name_table_addr = data & 0b00000011;
        proof {
            crate::util::lemma_masked(data, 0x03);
        }
    }

    pub fn to_n(&self) -> (r: u8)
        requires
            self.wf(),
        ensures
            r == ctrl_to_byte(*self),
    {
        let ghost s1 = bit_value(self.gen_nmi, 0x80) + bit_value(self.ppu_selector, 0x40);
        let ghost s2 = s1 + bit_value(self.sprite_size, 0x20) + bit_value(self.bk_table_addr, 0x10);
        let ghost s3 = s2 + bit_value(self.sprite_ptn_table_addr, 0x08) + bit_value(
            self.vram_increment,
            0x04,
        );
        let mut data: u8 = 0;
        data += self.gen_nmi as u8 * 0b10000000;
        data += self.ppu_selector as u8 * 0b01000000;
        assert(data == s1);
        data += self.sprite_size as u8 * 0b00100000;
        data += self.bk_table_addr as u8 * 0b00010000;
        assert(data == s2);
        data += self.sprite_ptn_table_addr as u8 * 0b00001000;
        data += self.vram_increment as u8 * 0b00000100;
        assert(data == s3);
        data += self.base_name_table_addr;
        data
    }

    pub fn is_deep_bk_index(&self) -> (r: bool)
        ensures
            r == self.bk_table_addr,
    {
        self.bk_table_addr
    }

    /// How far a PPUDATA access moves the VRAM address: 1, or 32 in
    /// vertical mode.
    pub fn increment_vram_num(&mut self) -> (r: u16)
        ensures
            r == (if old(self).vram_increment { 32u16 } else { 1u16 }),
            *final(self) == *old(self),
    {
        match self.vram_increment {
            false => 1,
            true => 32,
        }
    }

    pub fn for_big(&self) -> (r: bool)
        ensures
            r == self.sprite_size,
    {
        self.sprite_size
    }
}

/// Writing PPUCTRL and reading it back gives the byte written.
pub proof fn lemma_ctrl_write_then_read(d: u8)
    ensures
        ctrl_to_byte(ctrl_from_byte(d)) == d,
{
    assert(((if d & 0x80 != 0 { 0x80int } else { 0 }) + (if d & 0x40 != 0 { 0x40int } else { 0 })
        + (if d & 0x20 != 0 { 0x20int } else { 0 }) + (if d & 0x10 != 0 { 0x10int } else { 0 }) + (
    if d & 0x08 != 0 {
        0x08int
    } else {
        0
    }) + (if d & 0x04 != 0 { 0x04int } else { 0 }) + (d & 0x03)) as u8 == d) by (bit_vector);
}

/// PPUMASK.
#[derive(Debug, Clone)]
pub struct PpuMask {
    pub emf_blue: bool,
    pub emf_green: bool,
    pub emf_red: bool,
    pub show_sprites: bool,
    pub show_background: bool,
    pub show_sprites_in_leftmost: bool,
    pub show_background_in_leftmost: bool,
    pub gray_scale: bool,
}

/// PPUMASK after a write of `d`.
pub open spec fn mask_from_byte(d: u8) -> PpuMask {
    PpuMask {
        emf_blue: d & 0x80 != 0,
        emf_green: d & 0x40 != 0,
        emf_red: d & 0x20 != 0,
        show_sprites: d & 0x10 != 0,
        show_background: d & 0x08 != 0,
        show_sprites_in_leftmost: d & 0x04 != 0,
        show_background_in_leftmost: d & 0x02 != 0,
        gray_scale: d & 0x01 != 0,
    }
}

/// The byte that PPUMASK reads as.
pub open spec fn mask_to_byte(m: PpuMask) -> u8 {
    (bit_value(m.emf_blue, 0x80) + bit_value(m.emf_green, 0x40) + bit_value(m.emf_red, 0x20)
        + bit_value(m.show_sprites, 0x10) + bit_value(m.show_background, 0x08) + bit_value(
        m.show_sprites_in_leftmost,
        0x04,
    ) + bit_value(m.show_background_in_leftmost, 0x02) + bit_value(m.gray_scale, 0x01)) as u8
}

impl Default for PpuMask {
    fn default() -> (r: Self)
        ensures
            r == mask_from_byte(0),
    {
        Self::new()
    }
}

impl PpuMask {
    pub fn new() -> (r: Self)
        ensures
            r == mask_from_byte(0),
    {
        proof {
            crate::util::lemma_masked(0, 0x80);
            crate::util::lemma_masked(0, 0x40);
            crate::util::lemma_masked(0, 0x20);
            crate::util::lemma_masked(0, 0x10);
            crate::util::lemma_masked(0, 0x08);
            crate::util::lemma_masked(0, 0x04);
            crate::util::lemma_masked(0, 0x02);
            crate::util::lemma_masked(0, 0x01);
        }
        Self {
            emf_blue: false,
            emf_green: false,
            emf_red: false,
            show_sprites: false,
            show_background: false,
            show_sprites_in_leftmost: false,
            show_background_in_leftmost: false,
            gray_scale: false,
        }
    }

    pub fn set(&mut self, data: u8)
        ensures
            *final(self) == mask_from_byte(data),
    {
        self.emf_blue = (data & 0b10000000) != 0;
        self.emf_green = (data & 0b01000000) != 0;
        self.emf_red = (data & 0b00100000) != 0;
        self.show_sprites = (data & 0b00010000) != 0;
        self.show_background = (data & 0b00001000) != 0;
        self.show_sprites_in_leftmost = (data & 0b00000100) != 0;
        self.show_background_in_leftmost = (data & 0b00000010) != 0;
        self.gray_scale = (data & 0b00000001) != 0;
    }

    pub fn to_n(&self) -> (r: u8)
        ensures
            r == mask_to_byte(*self),
    {
        let ghost s1 = bit_value(self.emf_blue, 0x80) + bit_value(self.emf_green, 0x40);
        let ghost s2 = s1 + bit_value(self.emf_red, 0x20) + bit_value(self.show_sprites, 0x10);
        let ghost s3 = s2 + bit_value(self.show_background, 0x08) + bit_value(
            self.show_sprites_in_leftmost,
            0x04,
        );
        let ghost s4 = s3 + bit_value(self.show_background_in_leftmost, 0x02) + bit_value(
            self.gray_scale,
            0x01,
        );
        let mut data: u8 = 0;
        data += self.emf_blue as u8 * 0b10000000;
        data += self.emf_green as u8 * 0b01000000;
        assert(data == s1);
        data += self.emf_red as u8 * 0b00100000;
        data += self.show_sprites as u8 * 0b00010000;
        assert(data == s2);
        data += self.show_background as u8 * 0b00001000;
        data += self.show_sprites_in_leftmost as u8 * 0b00000100;
        assert(data == s3);
        data += self.show_background_in_leftmost as u8 * 0b00000010;
        data += self.gray_scale as u8;
        assert(data == s4);
        data
    }

    /// In gray scale mode a palette index keeps only its high nibble.
    pub fn apply_gray_scale(&self, color_idx: &mut usize)
        ensures
            *final(color_idx) == (if self.gray_scale {
                *old(color_idx) & 0b11110000
            } else {
                *old(color_idx)
            }),
    {
        if self.gray_scale {
            *color_idx &= 0b11110000
        }
    }

    pub fn is_show_sprites(&self) -> (r: bool)
        ensures
            r == self.show_sprites,
    {
        self.show_sprites
    }

    pub fn is_show_background(&self) -> (r: bool)
        ensures
            r == self.show_background,
    {
        self.show_background
    }
}

/// Writing PPUMASK and reading it back gives the byte written.
pub proof fn lemma_mask_write_then_read(d: u8)
    ensures
        mask_to_byte(mask_from_byte(d)) == d,
{
    assert(((if d & 0x80 != 0 { 0x80int } else { 0 }) + (if d & 0x40 != 0 { 0x40int } else { 0 })
        + (if d & 0x20 != 0 { 0x20int } else { 0 }) + (if d & 0x10 != 0 { 0x10int } else { 0 }) + (
    if d & 0x08 != 0 {
        0x08int
    } else {
        0
    }) + (if d & 0x04 != 0 { 0x04int } else { 0 }) + (if d & 0x02 != 0 { 0x02int } else { 0 })
        + (if d & 0x01 != 0 { 0x01int } else { 0 })) as u8 == d) by (bit_vector);
}

/// PPUSTATUS.
#[derive(Debug, Clone)]
pub struct PpuStatus {
    pub in_vlank: bool,
    pub sprite_zero_hit: bool,
    pub sprite_evoluation: bool,
    pub bus: u8,
    pub line_occured_sprite_zero_hit: u16,
}

/// PPUSTATUS after a write of `d`: bit 4 is dropped.
pub open spec fn status_from_byte(s: PpuStatus, d: u8) -> PpuStatus {
    PpuStatus {
        in_vlank: d & 0x80 != 0,
        sprite_zero_hit: d & 0x40 != 0,
        sprite_evoluation: d & 0x20 != 0,
        bus: d & 0x0F,
        ..s
    }
}

/// The byte that PPUSTATUS reads as.
pub open spec fn status_to_byte(s: PpuStatus) -> u8 {
    (bit_value(s.in_vlank, 0x80) + bit_value(s.sprite_zero_hit, 0x40) + bit_value(
        s.sprite_evoluation,
        0x20,
    ) + s.bus) as u8
}

impl Default for PpuStatus {
    fn default() -> (r: Self)
        ensures
            r == PpuStatus::initial(),
    {
        Self::new()
    }
}

impl PpuStatus {
    pub open spec fn initial() -> PpuStatus {
        PpuStatus {
            in_vlank: false,
            sprite_zero_hit: false,
            sprite_evoluation: false,
            bus: 0,
            line_occured_sprite_zero_hit: 0,
        }
    }

    /// The open-bus bits are the low nibble.
    pub open spec fn wf(&self) -> bool {
        self.bus < 16
    }

    pub fn new() -> (r: Self)
        ensures
            r == PpuStatus::initial(),
    {
        Self {
            in_vlank: false,
            sprite_zero_hit: false,
            sprite_evoluation: false,
            bus: 0,
            line_occured_sprite_zero_hit: 0,
        }
    }

    pub fn set(&mut self, data: u8)
        ensures
            *final(self) == status_from_byte(*old(self), data),
            final(self).wf(),
    {
        self.in_vlank = (data & 0b10000000) != 0;
        self.sprite_zero_hit = (data & 0b01000000) != 0;
        self.sprite_evoluation = (data & 0b00100000) != 0;
        self.bus = data & 0b00001111;
        proof {
            crate::util::lemma_masked(data, 0x0F);
        }
    }

    pub fn to_n(&self) -> (r: u8)
        requires
            self.wf(),
        ensures
            r == status_to_byte(*self),
    {
        let mut data: u8 = 0;
        data += self.in_vlank as u8 * 0b10000000;
        data += self.sprite_zero_hit as u8 * 0b01000000;
        data += self.sprite_evoluation as u8 * 0b00100000;
        data += self.bus;
        data
    }

    pub fn is_occured_sprite_zero_hit(&self) -> (r: bool)
        ensures
            r == self.sprite_zero_hit,
    {
        self.sprite_zero_hit
    }

    pub fn set_line_occured_sprite_zero_hit(&mut self, line: u16)
        ensures
            *final(self) == (PpuStatus { line_occured_sprite_zero_hit: line, ..*old(self) }),
    {
        self.line_occured_sprite_zero_hit = line;
    }

    pub fn true_sprite_zero_hit(&mut self)
        ensures
            *final(self) == (PpuStatus { sprite_zero_hit: true, ..*old(self) }),
    {
        self.sprite_zero_hit = true;
    }

    pub fn false_sprite_zero_hit(&mut self)
        ensures
            *final(self) == (PpuStatus { sprite_zero_hit: false, ..*old(self) }),
    {
        self.sprite_zero_hit = false;
    }
}

/// Writing PPUSTATUS and reading it back gives the byte written without bit 4.
pub proof fn lemma_status_write_then_read(s: PpuStatus, d: u8)
    ensures
        status_to_byte(status_from_byte(s, d)) == d & 0xEF,
{
    assert(((if d & 0x80 != 0 { 0x80int } else { 0 }) + (if d & 0x40 != 0 { 0x40int } else { 0 })
        + (if d & 0x20 != 0 { 0x20int } else { 0 }) + (d & 0x0F)) as u8 == d & 0xEF)
        by (bit_vector);
}

/// The PPUDATA read buffer: a read gives the byte fetched by the read before.
#[derive(Debug, Clone)]
pub struct PpuBuffer {
    pub buffer: u8,
    pub vram_memory: u8,
}

impl Default for PpuBuffer {
    fn default() -> (r: Self)
        ensures
            r.buffer == 0,
            r.vram_memory == 0,
    {
        Self::new()
    }
}

impl PpuBuffer {
    pub fn new() -> (r: Self)
        ensures
            r.buffer == 0,
            r.vram_memory == 0,
    {
        PpuBuffer { buffer: 0, vram_memory: 0 }
    }

    /// Gives the buffered byte and moves the fetched byte into the buffer.
    pub fn addr(&mut self) -> (r: u8)
        ensures
            r == old(self).buffer,
            final(self).buffer == old(self).vram_memory,
            final(self).vram_memory == old(self).vram_memory,
    {
        let data = self.buffer;
        self.buffer = self.vram_memory;
        data
    }

    pub fn set(&mut self, data: u8)
        ensures
            final(self).vram_memory == data,
            final(self).buffer == old(self).buffer,
    {
        self.vram_memory = data;
    }
}

/// The PPU registers as the CPU sees them at 0x2000..=0x2007.
#[derive(Debug, Clone)]
pub struct PpuRegister {
    pub ppu_ctrl: PpuCtrl,
    pub ppu_mask: PpuMask,
    pub ppu_status: PpuStatus,
    pub oam_addr: u8,
    pub oam_data: u8,
    pub ppu_data: u8,
    pub ppu_buffer: PpuBuffer,
    pub internal_registers: InternalRegisters,
}

/// `t` after a write of `d` to PPUCTRL: bits 10..=11 take the nametable number.
pub open spec fn t_after_ctrl(t: u16, d: u8) -> u16 {
    (t & 0b1111001111111111) | (((d as u16) & 0b11) << 10u16)
}

/// `t` after the first write of `d` to PPUSCROLL: bits 0..=4 take `d >> 3`.
pub open spec fn t_after_scroll_x(t: u16, d: u8) -> u16 {
    (t & 0b1111111111100000) | (((d as u16) & 0b11111000) >> 3u16)
}

/// `t` after the second write of `d` to PPUSCROLL: bits 12..=14 take
/// `d & 7`, bits 5..=9 take `d >> 3`.
pub open spec fn t_after_scroll_y(t: u16, d: u8) -> u16 {
    let d = d as u16;
    (t & 0b1000110000011111) | ((((d & 0b11000000) >> 6u16) << 8u16) | (((d & 0b00111000)
        >> 3u16) << 5u16) | ((d & 0b00000111) << 12u16))
}

/// `t` after the first write of `d` to PPUADDR: bits 8..=13 take `d & 0x3F`,
/// bits 14..=15 are cleared.
pub open spec fn t_after_addr_high(t: u16, d: u8) -> u16 {
    (t & 0b000000011111111) | (((d as u16) & 0b00111111) << 8u16)
}

/// `t` after the second write of `d` to PPUADDR: the low byte takes `d`,
/// bit 15 is cleared.
pub open spec fn t_after_addr_low(t: u16, d: u8) -> u16 {
    (t & 0b111111100000000) | (d as u16)
}

/// The PPU registers after the CPU writes `d` to `addr`.
pub open spec fn ppu_register_written(r: PpuRegister, addr: u16, d: u8) -> PpuRegister {
    let ir = r.internal_registers;
    if addr == 0x2000 {
        PpuRegister {
            ppu_ctrl: ctrl_from_byte(d),
            internal_registers: InternalRegisters {
                temporary_vram: t_after_ctrl(ir.temporary_vram, d),
                ..ir
            },
            ..r
        }
    } else if addr == 0x2001 {
        PpuRegister { ppu_mask: mask_from_byte(d), ..r }
    } else if addr == 0x2002 {
        PpuRegister { ppu_status: status_from_byte(r.ppu_status, d), ..r }
    } else if addr == 0x2003 {
        PpuRegister { oam_addr: d, ..r }
    } else if addr == 0x2004 {
        PpuRegister { oam_data: d, ..r }
    } else if addr == 0x2005 {
        if ir.latch_flag {
            PpuRegister {
                internal_registers: InternalRegisters {
                    temporary_vram: t_after_scroll_y(ir.temporary_vram, d),
                    latch_flag: false,
                    ..ir
                },
                ..r
            }
        } else {
            PpuRegister {
                internal_registers: InternalRegisters {
                    temporary_vram: t_after_scroll_x(ir.temporary_vram, d),
                    x_scroll: d & 0b111,
                    latch_flag: true,
                    ..ir
                },
                ..r
            }
        }
    } else {
        if ir.latch_flag {
            PpuRegister {
                internal_registers: InternalRegisters {
                    temporary_vram: t_after_addr_low(ir.temporary_vram, d),
                    current_vram: t_after_addr_low(ir.temporary_vram, d),
                    latch_flag: false,
                    ..ir
                },
                ..r
            }
        } else {
            PpuRegister {
                internal_registers: InternalRegisters {
                    temporary_vram: t_after_addr_high(ir.temporary_vram, d),
                    latch_flag: true,
                    ..ir
                },
                ..r
            }
        }
    }
}

/// The byte the CPU reads from the PPU register at `addr`.
pub open spec fn ppu_register_read(r: PpuRegister, addr: u16) -> u8 {
    if addr == 0x2000 {
        ctrl_to_byte(r.ppu_ctrl)
    } else if addr == 0x2001 {
        mask_to_byte(r.ppu_mask)
    } else if addr == 0x2002 {
        status_to_byte(r.ppu_status)
    } else if addr == 0x2003 {
        r.oam_addr
    } else {
        r.oam_data
    }
}

impl Default for PpuRegister {
    fn default() -> (r: Self)
        ensures
            r == PpuRegister::initial(),
            r.wf(),
    {
        Self::new()
    }
}

impl PpuRegister {
    pub open spec fn initial() -> PpuRegister {
        PpuRegister {
            ppu_ctrl: ctrl_from_byte(0),
            ppu_mask: mask_from_byte(0),
            ppu_status: PpuStatus::initial(),
            oam_addr: 0,
            oam_data: 0,
            ppu_data: 0,
            ppu_buffer: PpuBuffer { buffer: 0, vram_memory: 0 },
            internal_registers: InternalRegisters::initial(),
        }
    }

    pub open spec fn wf(&self) -> bool {
        self.ppu_ctrl.wf() && self.ppu_status.wf()
    }

    pub fn new() -> (r: Self)
        ensures
            r == PpuRegister::initial(),
            r.wf(),
    {
        proof {
            crate::util::lemma_masked(0, 0x03);
        }
        Self {
            ppu_ctrl: PpuCtrl::default(),
            ppu_mask: PpuMask::default(),
            ppu_status: PpuStatus::default(),
            oam_addr: 0,
            oam_data: 0,
            ppu_data: 0,
            ppu_buffer: PpuBuffer::default(),
            internal_registers: InternalRegisters::default(),
        }
    }

    /// A CPU write to one of the registers 0x2000..=0x2006.
    pub fn set(&mut self, addr: u16, data: u8)
        requires
            0x2000 <= addr <= 0x2006,
            old(self).wf(),
        ensures
            *final(self) == ppu_register_written(*old(self), addr, data),
            final(self).wf(),
    {
        match addr {
            0x2000 => {
                self.internal_registers.temporary_vram &= 0b1111001111111111;
                self.internal_registers.temporary_vram |= (data as u16 & 0b00000011) << 10;
                self.ppu_ctrl.set(data);
            },
            0x2001 => self.ppu_mask.set(data),
            0x2002 => self.ppu_status.set(data),
            0x2003 => self.oam_addr = data,
            0x2004 => self.oam_data = data,
            0x2005 => {
                let data = data as u16;
                match self.internal_registers.latch_flag {
                    true => {
                        self.internal_registers.temporary_vram &= 0b1000110000011111;
                        let b = (data & 0b00000111) << 12;
                        let m = ((data & 0b00111000) >> 3) << 5;
                        let h = ((data & 0b11000000) >> 6) << 8;
                        self.internal_registers.temporary_vram |= h | m | b
                    },
                    false => {
                        self.internal_registers.x_scroll = 0;
                        self.internal_registers.temporary_vram &= 0b1111111111100000;
                        let b = data & 0b00000111;
                        let h = (data & 0b11111000) >> 3;
                        self.internal_registers.x_scroll = b as u8;
                        self.internal_registers.temporary_vram |= h;
                    },
                }
                self.internal_registers.toggle_latch();
            },
            _ => {
                match self.internal_registers.latch_flag {
                    true => {
                        self.internal_registers.temporary_vram &= 0b111111100000000;
                        self.internal_registers.temporary_vram |= data as u16;
                        self.internal_registers.copy_current_vram_to_tempolary_vram();
                    },
                    false => {
                        self.internal_registers.temporary_vram &= 0b000000011111111;
                        self.internal_registers.temporary_vram |= (data as u16 & 0b00111111) << 8;
                    },
                }
                self.internal_registers.toggle_latch();
            },
        }
    }

    /// A CPU read of one of the registers 0x2000..=0x2004.
    pub fn addr(&mut self, addr: u16) -> (r: u8)
        requires
            0x2000 <= addr <= 0x2004,
            old(self).wf(),
        ensures
            r == ppu_register_read(*old(self), addr),
            *final(self) == *old(self),
    {
        match addr {
            0x2000 => self.ppu_ctrl.to_n(),
            0x2001 => self.ppu_mask.to_n(),
            0x2002 => self.ppu_status.to_n(),
            0x2003 => self.oam_addr,
            _ => self.oam_data,
        }
    }

    /// Moves the VRAM address on after a PPUDATA access.
    pub fn constant_inc_vram(&mut self)
        requires
            old(self).internal_registers.current_vram + (if old(self).ppu_ctrl.vram_increment {
                32int
            } else {
                1int
            }) <= u16::MAX,
        ensures
            *final(self) == (PpuRegister {
                internal_registers: InternalRegisters {
                    current_vram: (old(self).internal_registers.current_vram + (
                    if old(self).ppu_ctrl.vram_increment {
                        32int
                    } else {
                        1int
                    })) as u16,
                    ..old(self).internal_registers
                },
                ..*old(self)
            }),
    {
        let data = self.ppu_ctrl.increment_vram_num();
        self.internal_registers.inc_vram_addr(data);
    }
}

/// The APU and I/O registers of the CPU memory map.
#[derive(Debug, Clone)]
pub struct RP2A03 {
    pub oam_dma: u8,
    pub controller_0: Controller,
    pub controller_1: Controller,
    pub test_fanctionality: [u8; 0x0008],
}

impl Default for RP2A03 {
    fn default() -> (r: Self)
        ensures
            r.spec_oam_dma() == 0,
            r.spec_pad0() == 0,
            r.spec_pad1() == 0,
    {
        Self::new()
    }
}

impl RP2A03 {
    pub closed spec fn spec_oam_dma(&self) -> u8 {
        self.oam_dma
    }

    pub closed spec fn spec_pad0(&self) -> u8 {
        self.controller_0.spec_d0()
    }

    pub closed spec fn spec_pad1(&self) -> u8 {
        self.controller_1.spec_d0()
    }

    pub fn new() -> (r: Self)
        ensures
            r.spec_oam_dma() == 0,
            r.spec_pad0() == 0,
            r.spec_pad1() == 0,
    {
        Self {
            oam_dma: 0,
            controller_0: Controller::default(),
            controller_1: Controller::default(),
            test_fanctionality: [0;0x0008],
        }
    }

    pub fn addr(&mut self, addr: u16) -> (r: u8)
        requires
            addr == 0x4014 || addr == 0x4016 || addr == 0x4017,
        ensures
            r == (if addr == 0x4014 {
                old(self).spec_oam_dma()
            } else if addr == 0x4016 {
                old(self).spec_pad0()
            } else {
                old(self).spec_pad1()
            }),
            *final(self) == *old(self),
    {
        match addr {
            0x4014 => self.oam_dma,
            0x4016 => self.controller_0.d0,
            _ => self.controller_1.d0,
        }
    }

    pub fn set(&mut self, addr: u16, data: u8)
        requires
            addr == 0x4014,
        ensures
            final(self).spec_oam_dma() == data,
            final(self).spec_pad0() == old(self).spec_pad0(),
            final(self).spec_pad1() == old(self).spec_pad1(),
    {
        self.oam_dma = data;
    }
}

/// The CPU memory map as plain values: one byte cell per address (the
/// register windows 0x2000..=0x2007 and 0x4000..=0x4017 hold no cell),
/// the OAM DMA register and the two controller data lines.
pub struct CpuMapView {
    pub mem: Seq<u8>,
    pub oam_dma: u8,
    pub pad0: u8,
    pub pad1: u8,
}

/// Addresses backed by a plain byte cell.
pub open spec fn is_cell(a: int) -> bool {
    0 <= a < 0x10000 && !(0x2000 <= a <= 0x2007) && !(0x4000 <= a <= 0x4017)
}

/// Addresses whose read the CPU memory map answers.
pub open spec fn cpu_map_readable(a: u16) -> bool {
    !(0x2005 <= a <= 0x2007) && !(0x4000 <= a <= 0x4017 && a != 0x4014 && a != 0x4016 && a
        != 0x4017)
}

/// Addresses whose write the CPU memory map takes.
pub open spec fn cpu_map_writable(a: u16) -> bool {
    a != 0x2007 && !(0x4000 <= a <= 0x4017 && a != 0x4014) && a != 0x401F
}

/// The cell that a write to `a` lands in: the I/O window 0x4018..=0x401E
/// stores one cell above the address it is written at.
pub open spec fn cell_of_write(a: u16) -> int {
    if 0x4018 <= a <= 0x401E {
        a + 1
    } else {
        a as int
    }
}

/// The byte a read of `a` gives.
pub open spec fn cpu_map_read(v: CpuMapView, regs: PpuRegister, a: u16) -> u8 {
    if 0x2000 <= a <= 0x2007 {
        ppu_register_read(regs, a)
    } else if a == 0x4014 {
        v.oam_dma
    } else if a == 0x4016 {
        v.pad0
    } else if a == 0x4017 {
        v.pad1
    } else {
        v.mem[a as int]
    }
}

/// The cells after a write of `d` to a cell address `a`.
pub open spec fn cpu_map_written(v: CpuMapView, a: u16, d: u8) -> CpuMapView {
    if a == 0x4014 {
        CpuMapView { oam_dma: d, ..v }
    } else if 0x2000 <= a <= 0x2007 {
        v
    } else {
        CpuMapView { mem: v.mem.update(cell_of_write(a), d), ..v }
    }
}

/// The CPU address space 0x0000..=0xFFFF.
#[derive(Debug, Clone)]
pub struct CpuMap {
    pub wram: [u8; 0x0800],
    pub wram_mirror: [u8; 0x1800],
    pub ppu_register: PpuRegister,
    pub ppu_register_mirror: [u8; 0x1FF8],
    pub rp2a03: RP2A03,
    pub func_apu_io: [u8; 0x0008],
    pub erom: [u8; 0x1FE0],
    pub eram: [u8; 0x2000],
    pub prg_rom1: [u8; 0x4000],
    pub prg_rom2: [u8; 0x4000],
}

impl View for CpuMap {
    type V = CpuMapView;

    closed spec fn view(&self) -> CpuMapView {
        CpuMapView {
            mem: Seq::new(
                0x10000,
                |i: int|
                    if i < 0x0800 {
                        self.wram@[i]
                    } else if i < 0x2000 {
                        self.wram_mirror@[i - 0x0800]
                    } else if i < 0x2008 {
                        0
                    } else if i < 0x4000 {
                        self.ppu_register_mirror@[i - 0x2008]
                    } else if i < 0x4018 {
                        0
                    } else if i < 0x4020 {
                        self.func_apu_io@[i - 0x4018]
                    } else if i < 0x6000 {
                        self.erom@[i - 0x4020]
                    } else if i < 0x8000 {
                        self.eram@[i - 0x6000]
                    } else if i < 0xC000 {
                        self.prg_rom1@[i - 0x8000]
                    } else {
                        self.prg_rom2@[i - 0xC000]
                    },
            ),
            oam_dma: self.rp2a03.spec_oam_dma(),
            pad0: self.rp2a03.spec_pad0(),
            pad1: self.rp2a03.spec_pad1(),
        }
    }
}

impl Default for CpuMap {
    fn default() -> (r: Self)
        ensures
            r.ppu_register == PpuRegister::initial(),
            r.wf(),
            r@.oam_dma == 0,
            r@.pad0 == 0,
            r@.pad1 == 0,
            forall|i: int| 0 <= i < 0x10000 ==> r@.mem[i] == 0,
    {
        Self::new()
    }
}

impl CpuMap {
    pub open spec fn wf(&self) -> bool {
        self.ppu_register.wf()
    }

    pub fn new() -> (r: Self)
        ensures
            r.ppu_register == PpuRegister::initial(),
            r.wf(),
            r@.oam_dma == 0,
            r@.pad0 == 0,
            r@.pad1 == 0,
            forall|i: int| 0 <= i < 0x10000 ==> r@.mem[i] == 0,
    {
        Self {
            wram: [0;0x0800],
            wram_mirror: [0;0x1800],
            ppu_register: PpuRegister::default(),
            ppu_register_mirror: [0;0x1FF8],
            rp2a03: RP2A03::default(),
            func_apu_io: [0;0x0008],
            erom: [0;0x1FE0],
            eram: [0;0x2000],
            prg_rom1: [0;0x4000],
            prg_rom2: [0;0x4000],
        }
    }

    /// Reads `data` and the address after it within the same page, as the
    /// indirect jump does.
    pub fn lh_ignore_overflowing_addr(&mut self, data: u16) -> (r: (u8, u8))
        requires
            old(self).wf(),
            cpu_map_readable(data),
            cpu_map_readable(same_page_next(data)),
        ensures
            *final(self) == *old(self),
            r == (cpu_map_read(old(self)@, old(self).ppu_register, data), cpu_map_read(
                old(self)@,
                old(self).ppu_register,
                same_page_next(data),
            )),
    {
        let h_data = data & 0xff00;
        let l_data = (data as u8).wrapping_add(1);
        let next_addr = h_data | l_data as u16;
        assert(next_addr == same_page_next(data));
        let l_data = self.addr(data as u16);
        let h_data = self.addr(next_addr as u16);
        (l_data, h_data)
    }

    /// Reads a zero-page byte and the zero-page byte after it, wrapping at
    /// the end of the page.
    pub fn lh_zeropage_addr(&mut self, data: u8) -> (r: (u8, u8))
        requires
            old(self).wf(),
        ensures
            *final(self) == *old(self),
            r == (old(self)@.mem[data as int], old(self)@.mem[(data as int + 1) % 256]),
    {
        let next_addr_mem = data.wrapping_add(1);
        let l_data = self.addr(data as u16);
        let h_data = self.addr(next_addr_mem as u16);
        (l_data, h_data)
    }

    /// Reads `data` and `data + 1`.
    pub fn lh_addr(&mut self, data: u16) -> (r: (u8, u8))
        requires
            old(self).wf(),
            data < 0xFFFF,
            cpu_map_readable(data),
            cpu_map_readable((data + 1) as u16),
        ensures
            *final(self) == *old(self),
            r == (cpu_map_read(old(self)@, old(self).ppu_register, data), cpu_map_read(
                old(self)@,
                old(self).ppu_register,
                (data + 1) as u16,
            )),
    {
        let l_data = self.addr(data);
        let h_data = self.addr(data + 1);
        (l_data, h_data)
    }

    /// Reads `data` and `data + 1`, the first as the high byte.
    pub fn hl_addr(&mut self, data: u16) -> (r: (u8, u8))
        requires
            old(self).wf(),
            data < 0xFFFF,
            cpu_map_readable(data),
            cpu_map_readable((data + 1) as u16),
        ensures
            *final(self) == *old(self),
            r == (cpu_map_read(old(self)@, old(self).ppu_register, data), cpu_map_read(
                old(self)@,
                old(self).ppu_register,
                (data + 1) as u16,
            )),
    {
        let h_data = self.addr(data);
        let l_data = self.addr(data + 1);
        (h_data, l_data)
    }
}

/// The cells of the memory map do not depend on the PPU registers.
pub proof fn lemma_cells_ignore_registers(a: CpuMap, b: CpuMap)
    requires
        a.wram == b.wram,
        a.wram_mirror == b.wram_mirror,
        a.ppu_register_mirror == b.ppu_register_mirror,
        a.rp2a03 == b.rp2a03,
        a.func_apu_io == b.func_apu_io,
        a.erom == b.erom,
        a.eram == b.eram,
        a.prg_rom1 == b.prg_rom1,
        a.prg_rom2 == b.prg_rom2,
    ensures
        a@ == b@,
{
}

/// The memory map always has a cell for each of the 0x10000 addresses.
pub proof fn lemma_cpu_map_len(m: CpuMap)
    ensures
        m@.mem.len() == 0x10000,
{
}

/// The address after `a` within its 256-byte page.
pub open spec fn same_page_next(a: u16) -> u16 {
    (a & 0xff00) | (((a as u8) + 1) % 256) as u16
}

impl Mapper for CpuMap {
    open spec fn readable(&self, addr: u16) -> bool {
        self.wf() && cpu_map_readable(addr)
    }

    open spec fn writable(&self, addr: u16) -> bool {
        self.wf() && cpu_map_writable(addr)
    }

    fn addr(&mut self, addr: u16) -> (r: u8)
        ensures
            r == cpu_map_read(old(self)@, old(self).ppu_register, addr),
            *final(self) == *old(self),
    {
        match addr {
            0x0000..=0x07FF => self.wram[addr as usize],
            0x0800..=0x1FFF => self.wram_mirror[(addr - 0x0800) as usize],
            0x2000..=0x2007 => self.ppu_register.addr(addr),
            0x2008..=0x3FFF => self.ppu_register_mirror[(addr - 0x2008) as usize],
            0x4000..=0x4017 => self.rp2a03.addr(addr),
            0x4018..=0x401F => self.func_apu_io[(addr - 0x4018) as usize],
            0x4020..=0x5FFF => self.erom[(addr - 0x4020) as usize],
            0x6000..=0x7FFF => self.eram[(addr - 0x6000) as usize],
            0x8000..=0xBFFF => self.prg_rom1[(addr - 0x8000) as usize],
            0xC000..=0xFFFF => self.prg_rom2[(addr - 0xC000) as usize],
        }
    }

    fn set(&mut self, addr: u16, data: u8)
        ensures
            final(self)@ == cpu_map_written(old(self)@, addr, data),
            final(self).ppu_register == (if 0x2000 <= addr <= 0x2007 {
                ppu_register_written(old(self).ppu_register, addr, data)
            } else {
                old(self).ppu_register
            }),
            final(self).wf(),
    {
        let ghost v = self@;
        match addr {
            0x0000..=0x07FF => self.wram[addr as usize] = data,
            0x0800..=0x1FFF => self.wram_mirror[(addr - 0x0800) as usize] = data,
            0x2000..=0x2007 => self.ppu_register.set(addr, data),
            0x2008..=0x3FFF => self.ppu_register_mirror[(addr - 0x2008) as usize] = data,
            0x4000..=0x4015 => self.rp2a03.set(addr, data),
            0x4016..=0x4017 => {
                assert(false);
            },
            0x4018..=0x401F => self.func_apu_io[(addr - 0x4017) as usize] = data,
            0x4020..=0x5FFF => self.erom[(addr - 0x4020) as usize] = data,
            0x6000..=0x7FFF => self.eram[(addr - 0x6000) as usize] = data,
            0x8000..=0xBFFF => self.prg_rom1[(addr - 0x8000) as usize] = data,
            0xC000..=0xFFFF => self.prg_rom2[(addr - 0xC000) as usize] = data,
        };
        assert(self@.mem =~= cpu_map_written(v, addr, data).mem);
    }
}

/// Reading a cell address gives back the byte last written there, for every
/// writable cell outside the I/O window 0x4018..=0x401F.
pub proof fn lemma_cpu_map_read_after_write(v: CpuMapView, regs: PpuRegister, a: u16, d: u8)
    requires
        is_cell(a as int),
        !(0x4018 <= a <= 0x401F),
        v.mem.len() == 0x10000,
    ensures
        cpu_map_read(cpu_map_written(v, a, d), regs, a) == d,
{
}

/// Two writes to PPUADDR, high byte then low byte, with the write latch
/// clear, point the VRAM address at `(hi & 0x3F) * 256 + lo` and clear the
/// latch again.
pub proof fn lemma_ppu_addr_high_then_low(r: PpuRegister, hi: u8, lo: u8)
    requires
        !r.internal_registers.latch_flag,
    ensures
        ppu_register_written(ppu_register_written(r, 0x2006, hi), 0x2006, lo).internal_registers.current_vram
            == (hi & 0x3F) as int * 256 + lo,
        !ppu_register_written(
            ppu_register_written(r, 0x2006, hi),
            0x2006,
            lo,
        ).internal_registers.latch_flag,
{
    let t = r.internal_registers.temporary_vram;
    let t1 = t_after_addr_high(t, hi);
    let t2 = t_after_addr_low(t1, lo);
    assert(t2 == (hi & 0x3F) as u16 * 256 + lo as u16) by (bit_vector)
        requires
            t1 == (t & 0b000000011111111) | (((hi as u16) & 0b00111111) << 8u16),
            t2 == (t1 & 0b111111100000000) | (lo as u16),
    ;
}

/// A write of `d` to PPUCTRL puts the nametable number `d & 3` into bits
/// 10..=11 of the temporary VRAM address, bit 0 of `d` into bit 10 and bit 1
/// into bit 11, and keeps every other bit of it.
pub proof fn lemma_ctrl_write_nametable(r: PpuRegister, d: u8)
    ensures
        (ppu_register_written(r, 0x2000, d).internal_registers.temporary_vram / 0x400) % 4
            == d % 4,
        ppu_register_written(r, 0x2000, d).internal_registers.temporary_vram % 0x400
            == r.internal_registers.temporary_vram % 0x400,
        ppu_register_written(r, 0x2000, d).internal_registers.temporary_vram / 0x1000
            == r.internal_registers.temporary_vram / 0x1000,
{
    let t = r.internal_registers.temporary_vram;
    let t2 = t_after_ctrl(t, d);
    assert((t2 / 0x400) % 4 == d % 4 && t2 % 0x400 == t % 0x400 && t2 / 0x1000 == t / 0x1000)
        by (bit_vector)
        requires
            t2 == (t & 0b1111001111111111) | (((d as u16) & 0b11) << 10u16),
    ;
}

} // verus!
