pub mod configure;
pub mod frame;
pub mod sheet;
pub mod texture;

use vstd::prelude::*;

use crate::cpu::instruction::after_reset;
use crate::cpu::register::flags_to_byte;
use crate::cpu::{full_operator_table, pushed, CpuState, CPU};
use crate::nes::Nes;
use crate::bus::cpu_map::PpuRegister;
use crate::bus::cpu_map::{CpuMap, PpuStatus};
use crate::bus::{Bus, Mapper};
use crate::ppu::mapper::{ppu_map_read, PpuMapView};
use crate::util::calc_scrolled_tile_ratio;
use crate::ppu::oam::{first_at_x, SpriteInfo};
use texture::{
    color_table, color_table_contains, color_table_insert, color_table_new, paint_dots,
    pixel_offset, row_fits, table_colors_ok, table_dots, ColorTable, TextureBuffer,
};

verus! {

/// The keys the emulator reads.
#[derive(Debug, Clone, Copy, PartialEq, Eq, Structural)]
pub enum Key {
    X,
    Z,
    Space,
    Return,
    Up,
    Down,
    Left,
    Right,
    N,
    M,
    Comma,
    Semicolon,
    I,
    J,
    L,
    K,
    Escape,
    F1,
    F2,
    Other,
}

/// The controller bits of a key: the low byte is the first pad (A, B,
/// select, start, up, down, left, right), the high byte the second.
pub open spec fn key_bits(k: Key) -> u16 {
    match k {
        Key::X => 0x0001,
        Key::Z => 0x0002,
        Key::Space => 0x0004,
        Key::Return => 0x0008,
        Key::Up => 0x0010,
        Key::Down => 0x0020,
        Key::Left => 0x0040,
        Key::Right => 0x0080,
        Key::N => 0x0200,
        Key::M => 0x0100,
        Key::Comma => 0x0400,
        Key::Semicolon => 0x0800,
        Key::I => 0x1000,
        Key::J => 0x4000,
        Key::L => 0x8000,
        Key::K => 0x2000,
        _ => 0,
    }
}

/// What the window reports.
#[derive(Debug, Clone, Copy, PartialEq, Eq, Structural)]
pub enum KeyEvent {
    Quit,
    KeyDown(Key),
    KeyUp(Key),
}

/// What the emulator asks of the window loop after an event.
#[derive(Debug, Clone, Copy, PartialEq, Eq, Structural)]
pub enum KeyAction {
    Continue,
    Quit,
    Save,
    Load,
}

/// The emulator: the processor with its bus, the PPU and APU clocks, the
/// line being drawn, the picture, and the controller keys held down.
pub struct Emulator<
    const TILE_COUNTS_ON_WIDTH: u32,
    const WINDOW_HEIGHT: u32,
    const WINDOW_WIDTH: u32,
    const PPU_DRAW_LINE_CYCLE: u16,
    const VBLANK_LINE: u16,
    const TOTAL_LINE: u16,
    const VISIBLE_LINES: u16,
    const APU_UPDATE_CYCLE: u16,
> {
    pub cpu: CPU,
    pub ppu_cycle: u16,
    pub apu_cycle: u16,
    pub drawing_line: u16,
    pub texture_buffer: TextureBuffer<TILE_COUNTS_ON_WIDTH, VISIBLE_LINES>,
    pub pad_data: u16,
}

/// The nametable that bits 10 and 11 of the PPU address `t` select.
pub open spec fn base_nametable(t: u16) -> u16 {
    (0x2000 + (if t & 0x400 != 0 {
        0x400int
    } else {
        0
    }) + (if t & 0x800 != 0 {
        0x800int
    } else {
        0
    })) as u16
}

/// How many times a tile coordinate past `limit` steps back by `step`
/// into the next nametable, at most twice.
pub open spec fn wraps(v: int, limit: int, step: int) -> int {
    if v > limit {
        if v - step > limit {
            2
        } else {
            1
        }
    } else {
        0
    }
}

/// The nametable address of the tile `data` columns right of the scroll
/// position (`x`, `y`) on line `line`.  A column past the right edge is
/// taken from the horizontally next nametable, a row past the bottom from
/// the vertically next one.
pub open spec fn tile_addr(base: u16, x: u16, y: u16, data: u16, line: u16) -> int {
    let x1 = x / 8 + data;
    let y1 = ((y + line) / 8) * 0x20;
    let tx = wraps(x1 as int, 0x1F, 0x20);
    let ty = wraps(y1 as int, 0x3A0, 0x3C0);
    let b = (base ^ (if tx == 1 {
        0x400u16
    } else {
        0
    })) ^ (if ty == 1 {
        0x800u16
    } else {
        0
    });
    b + (x1 - 0x20 * tx) + (y1 - 0x3C0 * ty)
}

/// The addresses of the four nametables, without their attribute tables.
pub open spec fn in_name_table(nt: int) -> bool {
    ||| 0x2000 <= nt <= 0x23BF
    ||| 0x2400 <= nt <= 0x27BF
    ||| 0x2800 <= nt <= 0x2BBF
    ||| 0x2C00 <= nt <= 0x2FBF
}

/// The start of the nametable that holds `nt`.
pub open spec fn name_table_base(nt: int) -> int {
    if nt < 0x2400 {
        0x2000
    } else if nt < 0x2800 {
        0x2400
    } else if nt < 0x2C00 {
        0x2800
    } else {
        0x2C00
    }
}

/// The attribute byte that covers the tile at `nt`.
pub open spec fn attr_cell(nt: int) -> int {
    let rel = nt - name_table_base(nt);
    name_table_base(nt) + 0x3C0 + (rel / 0x80) * 8 + (nt % 32) / 4
}

/// Which 2-bit field of its attribute byte covers the tile at `nt`.
pub open spec fn attr_quadrant(nt: int) -> int {
    let rel = nt - name_table_base(nt);
    ((rel / 0x40) % 2) * 2 + ((nt % 32) / 2) % 2
}

/// The palette offset (0, 4, 8 or 12) that the attribute byte `p` gives to
/// quadrant `q`.
pub open spec fn attr_palette(p: usize, q: usize) -> int {
    ((p & (3usize << ((q * 2) as usize))) >> ((q * 2) as usize)) * 4
}

/// The 2-bit colour of bit `k` of a tile row: the bit of the high plane
/// and the bit of the low plane.
pub open spec fn pixel_index(row: u8, high: u8, k: u32) -> int {
    (if high & (1u8 << k) != 0 {
        2u16
    } else {
        0u16
    }) + (if row & (1u8 << k) != 0 {
        1u16
    } else {
        0u16
    })
}

/// A colour read from the palette, with its low four bits cleared in
/// greyscale mode.
pub open spec fn gray_masked(v: u8, gray: bool) -> usize {
    if gray {
        (v as usize) & 0xF0
    } else {
        v as usize
    }
}

/// The address of row `r` (0..=7) of background tile `tile`, from the
/// pattern table that `deep` selects.
pub open spec fn tile_row_addr(tile: u8, r: int, deep: bool) -> int {
    tile * 0x10 + r + (if deep {
        0x1000int
    } else {
        0
    })
}

/// Every palette colour is one of the 64 the picture can show.
pub open spec fn palette_ok(m: PpuMapView) -> bool {
    forall|a: int| 0x3F00 <= a < 0x3F20 ==> #[trigger] m.mem[a] < 64
}

/// The scroll position as the PPU registers hold it: X from bits 0..=4 of
/// `t` and the fine X scroll (only once a sprite-zero hit occurred), Y from
/// bits 5..=9 and 12..=14 of `t`.
pub open spec fn scroll_of(t: u16, fine_x: u8, zero_hit: bool) -> (u16, u16) {
    let l = if zero_hit {
        fine_x
    } else {
        0
    };
    (((t & 0b00011111) << 3u16) | l as u16, ((((t & 0b0000001100000000) >> 8u16) << 6u16) | (((t
        & 0b011100000) >> 5u16) << 3u16) | ((t & 0b0111000000000000) >> 12u16)))
}

/// The two bit planes of the row of the background tile at `nt` that
/// line `line` shows with vertical scroll `sy`.
pub open spec fn bg_row(m: PpuMapView, nt: int, sy: u16, line: u16, deep: bool) -> (u8, u8) {
    let a = tile_row_addr(ppu_map_read(m, nt as u16), (sy + line) % 8, deep);
    (ppu_map_read(m, a as u16), ppu_map_read(m, (a + 8) as u16))
}

/// The palette offset of the tile at `nt`.
pub open spec fn attr_of(m: PpuMapView, nt: int) -> int {
    attr_palette(ppu_map_read(m, attr_cell(nt) as u16) as usize, attr_quadrant(nt) as usize)
}

/// The colour of a background dot with 2-bit colour `pal` under palette
/// offset `attr`.
pub open spec fn bg_color(m: PpuMapView, gray: bool, attr: int, pal: int) -> usize {
    gray_masked(ppu_map_read(m, (0x3F00 + attr + pal) as u16), gray)
}

/// The dots of the left part of tile `tile` of a line: the last `left`
/// dots of its row, from X position `tile * 8` on.
pub open spec fn left_dots(
    m: PpuMapView,
    gray: bool,
    row: (u8, u8),
    tile: int,
    attr: int,
    left: int,
) -> Seq<(u8, usize)> {
    Seq::new(
        left as nat,
        |i: int|
            (
                ((i + tile * 8) % 256) as u8,
                bg_color(m, gray, attr, pixel_index(row.0, row.1, (left - 1 - i) as u32)),
            ),
    )
}

/// The dots of the right part of tile `tile` of a line: the first `right`
/// dots of the next tile's row, from X position `tile * 8 + left` on.
pub open spec fn right_dots(
    m: PpuMapView,
    gray: bool,
    row: (u8, u8),
    tile: int,
    attr: int,
    left: int,
    right: int,
) -> Seq<(u8, usize)> {
    Seq::new(
        right as nat,
        |i: int|
            (
                ((left + i + tile * 8) % 256) as u8,
                bg_color(m, gray, attr, pixel_index(row.0, row.1, (7 - i) as u32)),
            ),
    )
}

/// The dots of the line for the tiles `0..n`, from the nametable addresses
/// `nts` of the tiles the line shows.
pub open spec fn background_dots(
    m: PpuMapView,
    gray: bool,
    deep: bool,
    nts: Seq<usize>,
    sx: u16,
    sy: u16,
    line: u16,
    n: int,
) -> Seq<(u8, usize)>
    decreases n,
{
    if n <= 0 {
        Seq::empty()
    } else {
        let t = n - 1;
        let left = 8 - sx % 8;
        let right = (sx % 8) as int;
        background_dots(m, gray, deep, nts, sx, sy, line, t) + left_dots(
            m,
            gray,
            bg_row(m, nts[t] as int, sy, line, deep),
            t,
            attr_of(m, nts[t] as int),
            left,
        ) + right_dots(
            m,
            gray,
            bg_row(m, nts[t + 1] as int, sy, line, deep),
            t,
            attr_of(m, nts[t + 1] as int),
            left,
            right,
        )
    }
}

/// The nametable addresses of the 33 tiles line `line` shows.
pub open spec fn line_nametables(regs: PpuRegister, line: u16) -> Seq<usize> {
    let ir = regs.internal_registers;
    let (sx, sy) = scroll_of(ir.temporary_vram, ir.x_scroll, regs.ppu_status.sprite_zero_hit);
    Seq::new(
        33,
        |i: int| tile_addr(base_nametable(ir.temporary_vram), sx, sy, i as u16, line) as usize,
    )
}

/// The background dots of line `line` across `w` tiles, as the PPU
/// registers scroll it.
pub open spec fn line_background(m: PpuMapView, regs: PpuRegister, line: u16, w: int) -> Seq<
    (u8, usize),
> {
    let ir = regs.internal_registers;
    let (sx, sy) = scroll_of(ir.temporary_vram, ir.x_scroll, regs.ppu_status.sprite_zero_hit);
    background_dots(
        m,
        regs.ppu_mask.gray_scale,
        regs.ppu_ctrl.bk_table_addr,
        line_nametables(regs, line),
        sx,
        sy,
        line,
        w,
    )
}

/// A sprite dot: its X position, its colour, and whether it raises the
/// sprite-zero hit.
pub type SpriteDot = (u8, usize, bool);

/// The dot of pixel `j` (0..=7, left to right) of a sprite row: none when
/// the 2-bit colour of bit `k` is 0, else the colour from sprite palette
/// entry `palette * 4 + colour`.
pub open spec fn sprite_dot(
    s: SpriteInfo,
    m: PpuMapView,
    gray: bool,
    row: u8,
    high: u8,
    j: int,
    k: int,
) -> Option<SpriteDot> {
    let idx = pixel_index(row, high, k as u32);
    if idx == 0 {
        None
    } else {
        let pi = s.attr.palette * 4 + idx;
        Some(
            (
                ((s.pos_x + j) % 256) as u8,
                gray_masked(m.mem[0x3F10 + pi], gray),
                s.attr.priority && pi % 4 != 0,
            ),
        )
    }
}

/// The pattern address of the row of an 8x8 sprite that line `line`
/// shows, flipped vertically if the sprite asks for it.
pub open spec fn normal_sprite_row_addr(s: SpriteInfo, ptn: bool, line: u16) -> int {
    let rel = (line - s.pos_y) % 8;
    (if s.tile_index.bank_of_tile {
        0x1000int
    } else {
        0
    }) + (if ptn {
        0x1000int
    } else {
        0
    }) + s.tile_index.tile_number * 0x10 + (if s.attr.flip_sprite_vertically {
        7 - rel
    } else {
        rel
    })
}

/// The eight dots of a sprite row with bit planes `row` and `high`, left to
/// right; a flipped sprite reads the bits from the other end.
pub open spec fn row_dots(
    s: SpriteInfo,
    m: PpuMapView,
    gray: bool,
    row: u8,
    high: u8,
    flip: bool,
) -> Seq<Option<SpriteDot>> {
    Seq::new(
        8,
        |j: int|
            sprite_dot(
                s,
                m,
                gray,
                row,
                high,
                j,
                if flip {
                    j
                } else {
                    7 - j
                },
            ),
    )
}

/// The eight dots of the row of an 8x8 sprite that line `line` shows,
/// mirrored if the sprite is flipped horizontally.
pub open spec fn normal_sprite_dots(
    s: SpriteInfo,
    m: PpuMapView,
    gray: bool,
    ptn: bool,
    line: u16,
) -> Seq<Option<SpriteDot>> {
    let a = normal_sprite_row_addr(s, ptn, line);
    row_dots(
        s,
        m,
        gray,
        ppu_map_read(m, a as u16),
        ppu_map_read(m, (a + 8) as u16),
        s.attr.flip_sprite_horizontally,
    )
}

/// The pattern address of the row of the upper tile of an 8x16 sprite that
/// line `line` shows: even tile numbers use the first pattern table.
pub open spec fn big_sprite_row_addr(s: SpriteInfo, line: u16) -> int {
    let rel = (line - s.pos_y) % 8;
    (if (s.tile_index.tile_number + 1) % 2 == 0 {
        0x1000int
    } else {
        0
    }) + (s.tile_index.tile_number / 2) * 0x20 + rel
}

/// The eight dots of the row of the upper or lower tile of an 8x16 sprite
/// that line `line` shows.
pub open spec fn big_sprite_dots(
    s: SpriteInfo,
    m: PpuMapView,
    gray: bool,
    line: u16,
    is_bottom: bool,
) -> Seq<Option<SpriteDot>> {
    let a = big_sprite_row_addr(s, line) + if is_bottom {
        0x10int
    } else {
        0
    };
    row_dots(s, m, gray, ppu_map_read(m, a as u16), ppu_map_read(m, (a + 8) as u16), false)
}

/// The dots of the sprites of the secondary OAM, taken by X position
/// `0..n`: for each position the first sprite there, if any.
pub open spec fn sprite_line_dots(
    so: Seq<SpriteInfo>,
    dots_of: spec_fn(SpriteInfo) -> Seq<Option<SpriteDot>>,
    n: int,
) -> Seq<Option<SpriteDot>>
    decreases n,
{
    if n <= 0 {
        Seq::empty()
    } else {
        sprite_line_dots(so, dots_of, n - 1) + match first_at_x(so, (n - 1) as u8) {
            Some(s) => dots_of(s),
            None => Seq::empty(),
        }
    }
}

/// The colour table the dots make: the first dot at an X position gives
/// its colour.
pub open spec fn first_colors(dots: Seq<Option<SpriteDot>>) -> Map<u8, usize>
    decreases dots.len(),
{
    if dots.len() == 0 {
        Map::empty()
    } else {
        let m = first_colors(dots.drop_last());
        match dots.last() {
            Some(d) => if m.contains_key(d.0) {
                m
            } else {
                m.insert(d.0, d.1)
            },
            None => m,
        }
    }
}

/// Some dot raises the sprite-zero hit.
pub open spec fn hits_zero(dots: Seq<Option<SpriteDot>>) -> bool {
    exists|i: int| 0 <= i < dots.len() && (#[trigger] dots[i] matches Some(d) && d.2)
}

/// The sprites of the secondary OAM can be drawn on line `line`: the line
/// is at or below the top of each, and its palette is one of the four
/// sprite palettes.
pub open spec fn sprites_drawable(so: Seq<SpriteInfo>, line: u16) -> bool {
    forall|sp: SpriteInfo| #[trigger] so.contains(sp) ==> sp.pos_y <= line && sp.attr.palette < 4
}

/// No sprite of the secondary OAM uses the last tile number, whose upper
/// half of an 8x16 sprite has no successor.
pub open spec fn tiles_below_last(so: Seq<SpriteInfo>) -> bool {
    forall|sp: SpriteInfo| #[trigger] so.contains(sp) ==> sp.tile_index.tile_number < 255
}

/// The processor with the sprite-zero hit flag of PPUSTATUS replaced.
pub open spec fn with_sprite_zero_hit(c: CPU, h: bool) -> CPU {
    CPU {
        bus: Bus {
            cpu_bus: CpuMap {
                ppu_register: PpuRegister {
                    ppu_status: PpuStatus {
                        sprite_zero_hit: h,
                        ..c.bus.cpu_bus.ppu_register.ppu_status
                    },
                    ..c.bus.cpu_bus.ppu_register
                },
                ..c.bus.cpu_bus
            },
            ..c.bus
        },
        ..c
    }
}

/// Adding a dot: the first dot at an X position keeps its colour, and the
/// hit is raised if the new dot raises it.
pub proof fn lemma_dots_push(dots: Seq<Option<SpriteDot>>, d: Option<SpriteDot>)
    ensures
        first_colors(dots.push(d)) == (match d {
            Some(e) => if first_colors(dots).contains_key(e.0) {
                first_colors(dots)
            } else {
                first_colors(dots).insert(e.0, e.1)
            },
            None => first_colors(dots),
        }),
        hits_zero(dots.push(d)) == (hits_zero(dots) || (d matches Some(e) && e.2)),
{
    assert(dots.push(d).drop_last() =~= dots);
    if hits_zero(dots) {
        let i = choose|i: int| 0 <= i < dots.len() && (#[trigger] dots[i] matches Some(e) && e.2);
        assert(dots.push(d)[i] == dots[i]);
    }
    if d matches Some(e) && e.2 {
        assert(dots.push(d)[dots.len() as int] == d);
    }
    if hits_zero(dots.push(d)) {
        let i = choose|i: int|
            0 <= i < dots.push(d).len() && (#[trigger] dots.push(d)[i] matches Some(e) && e.2);
        if i < dots.len() {
            assert(dots[i] == dots.push(d)[i]);
        }
    }
}

/// Colours of dots that all come from a palette of picture colours are
/// picture colours.
pub proof fn lemma_first_colors_ok(dots: Seq<Option<SpriteDot>>)
    requires
        forall|i: int| 0 <= i < dots.len() ==> (#[trigger] dots[i] matches Some(d) ==> d.1 < 64),
    ensures
        table_colors_ok(first_colors(dots)),
    decreases dots.len(),
{
    if dots.len() > 0 {
        let p = dots.drop_last();
        assert forall|i: int| 0 <= i < p.len() implies (#[trigger] p[i] matches Some(d) ==> d.1
            < 64) by {
            assert(p[i] == dots[i]);
        }
        lemma_first_colors_ok(p);
        assert(dots.last() == dots[dots.len() - 1]);
    }
}

/// The state after the start-up sequence: the low byte of the program
/// counter and then the status are pushed, and the processor is reset.
pub open spec fn started(s: CpuState) -> CpuState {
    let s1 = pushed(s, (s.regs.pc % 256) as u8);
    after_reset(pushed(s1, flags_to_byte(s1.regs.p)))
}

impl<
    const TILE_COUNTS_ON_WIDTH: u32,
    const WINDOW_HEIGHT: u32,
    const WINDOW_WIDTH: u32,
    const PPU_DRAW_LINE_CYCLE: u16,
    const VBLANK_LINE: u16,
    const TOTAL_LINE: u16,
    const VISIBLE_LINES: u16,
    const APU_UPDATE_CYCLE: u16,
> Emulator<
    TILE_COUNTS_ON_WIDTH,
    WINDOW_HEIGHT,
    WINDOW_WIDTH,
    PPU_DRAW_LINE_CYCLE,
    VBLANK_LINE,
    TOTAL_LINE,
    VISIBLE_LINES,
    APU_UPDATE_CYCLE,
> {
    /// An emulator for the cartridge, with the instruction table filled
    /// and every clock at zero.
    pub fn new(nes: &Nes) -> (r: Self)
        ensures
            r.cpu.wf(),
            r.cpu.ops() == full_operator_table(),
            r.cpu@.regs == crate::cpu::register::Register::initial(),
            r.cpu@.cycle == 0,
            r.ppu_cycle == 0,
            r.apu_cycle == 0,
            r.drawing_line == 0,
            r.pad_data == 0,
            forall|i: int| 0 <= i < 184320 ==> r.texture_buffer.buffer@[i] == 0,
            r.texture_buffer.colors_of() == texture::nes_palette(),
    {
        let mut cpu = CPU::new(nes);
        cpu.prepare_operators();
        let texture_buffer = TextureBuffer::new();

        Self { cpu, ppu_cycle: 0, apu_cycle: 0, drawing_line: 0, texture_buffer, pad_data: 0 }
    }

    /// Pushes the low byte of the program counter and the status, then
    /// resets the processor.
    pub fn startup(&mut self)
        requires
            old(self).cpu.wf(),
        ensures
            final(self).cpu@ == started(old(self).cpu@),
            final(self).cpu.ops() == old(self).cpu.ops(),
            final(self).cpu.wf(),
            final(self).ppu_cycle == old(self).ppu_cycle,
            final(self).apu_cycle == old(self).apu_cycle,
            final(self).drawing_line == old(self).drawing_line,
            final(self).pad_data == old(self).pad_data,
            final(self).texture_buffer == old(self).texture_buffer,
    {
        let pc16 = self.cpu.get_pc();
        let pc = (#[verifier::truncate] (pc16 as u8));
        proof {
            crate::util::lemma_low_byte_u16(pc16);
        }
        self.cpu.push_stack(pc);
        let p = self.cpu.get_p();
        self.cpu.push_stack(p);
        self.cpu.reset();
    }

    fn inc_apu_cycle(&mut self)
        requires
            old(self).apu_cycle + old(self).cpu.cycle <= u16::MAX,
        ensures
            final(self).apu_cycle == old(self).apu_cycle + old(self).cpu.cycle,
            final(self).cpu == old(self).cpu,
            final(self).ppu_cycle == old(self).ppu_cycle,
            final(self).drawing_line == old(self).drawing_line,
            final(self).pad_data == old(self).pad_data,
            final(self).texture_buffer == old(self).texture_buffer,
    {
        self.apu_cycle += self.cpu.cycle as u16;
    }

    fn inc_ppu_cycle(&mut self)
        requires
            old(self).ppu_cycle + old(self).cpu.cycle * 3 <= u16::MAX,
        ensures
            final(self).ppu_cycle == old(self).ppu_cycle + old(self).cpu.cycle * 3,
            final(self).cpu == old(self).cpu,
            final(self).apu_cycle == old(self).apu_cycle,
            final(self).drawing_line == old(self).drawing_line,
            final(self).pad_data == old(self).pad_data,
            final(self).texture_buffer == old(self).texture_buffer,
    {
        self.ppu_cycle += (self.cpu.cycle * 3) as u16;
    }

    /// The controller bits of a key.
    pub fn reference_keycode(&mut self, keycode: Key) -> (r: u16)
        ensures
            r == key_bits(keycode),
            *final(self) == *old(self),
    {
        proof {
            crate::util::lemma_shift_high_byte(1);
            crate::util::lemma_shift_high_byte(2);
            crate::util::lemma_shift_high_byte(4);
            crate::util::lemma_shift_high_byte(8);
            crate::util::lemma_shift_high_byte(16);
            crate::util::lemma_shift_high_byte(32);
            crate::util::lemma_shift_high_byte(64);
            crate::util::lemma_shift_high_byte(128);
        }
        match keycode {
            Key::X => 0b00000001,
            Key::Z => 0b00000010,
            Key::Space => 0b00000100,
            Key::Return => 0b00001000,
            Key::Up => 0b00010000,
            Key::Down => 0b00100000,
            Key::Left => 0b01000000,
            Key::Right => 0b10000000,
            Key::N => 0b00000010 << 8,
            Key::M => 0b00000001 << 8,
            Key::Comma => 0b00000100 << 8,
            Key::Semicolon => 0b00001000 << 8,
            Key::I => 0b00010000 << 8,
            Key::J => 0b01000000 << 8,
            Key::L => 0b10000000 << 8,
            Key::K => 0b00100000 << 8,
            _ => 0,
        }
    }

    /// Takes one window event: quitting or Escape stops, F1 saves, F2
    /// loads, another key pressed or released sets or clears its
    /// controller bits.
    pub fn handle_keyboard(&mut self, event: KeyEvent) -> (r: KeyAction)
        ensures
            r == (match event {
                KeyEvent::Quit | KeyEvent::KeyDown(Key::Escape) => KeyAction::Quit,
                KeyEvent::KeyDown(Key::F1) => KeyAction::Save,
                KeyEvent::KeyDown(Key::F2) => KeyAction::Load,
                _ => KeyAction::Continue,
            }),
            final(self).pad_data == (match event {
                KeyEvent::KeyDown(k) => if k == Key::Escape || k == Key::F1 || k == Key::F2 {
                    old(self).pad_data
                } else {
                    old(self).pad_data | key_bits(k)
                },
                KeyEvent::KeyUp(k) => old(self).pad_data & !key_bits(k),
                KeyEvent::Quit => old(self).pad_data,
            }),
            final(self).cpu == old(self).cpu,
            final(self).ppu_cycle == old(self).ppu_cycle,
            final(self).apu_cycle == old(self).apu_cycle,
            final(self).drawing_line == old(self).drawing_line,
            final(self).texture_buffer == old(self).texture_buffer,
    {
        match event {
            KeyEvent::Quit | KeyEvent::KeyDown(Key::Escape) => KeyAction::Quit,
            KeyEvent::KeyDown(Key::F1) => KeyAction::Save,
            KeyEvent::KeyDown(Key::F2) => KeyAction::Load,
            KeyEvent::KeyDown(key) => {
                self.pad_data |= self.reference_keycode(key);
                KeyAction::Continue
            },
            KeyEvent::KeyUp(key) => {
                self.pad_data &= !self.reference_keycode(key);
                KeyAction::Continue
            },
        }
    }

    /// Hands the keys held down to the controller port.
    pub fn poll_pad(&mut self)
        ensures
            final(self).cpu.bus.controller_polling_data == old(self).pad_data,
            final(self).cpu.bus.controller_0_polled_data == old(self).cpu.bus.controller_0_polled_data,
            final(self).cpu.bus.controller_1_polled_data == old(self).cpu.bus.controller_1_polled_data,
            final(self).cpu.bus.cpu_bus == old(self).cpu.bus.cpu_bus,
            final(self).cpu.bus.ppu == old(self).cpu.bus.ppu,
            final(self).cpu.bus.apu == old(self).cpu.bus.apu,
            final(self).cpu.register == old(self).cpu.register,
            final(self).cpu.operators == old(self).cpu.operators,
            final(self).cpu.cycle == old(self).cpu.cycle,
            final(self).cpu.total_cycle == old(self).cpu.total_cycle,
            final(self).pad_data == old(self).pad_data,
    {
        self.cpu.bus.controller_polling_data = self.pad_data;
    }

    /// Adds the cycles of the last instruction to the APU clock and returns
    /// how many APU updates are due; the clock keeps the remainder.
    pub fn apu_update(&mut self) -> (ticks: u16)
        requires
            APU_UPDATE_CYCLE > 0,
            old(self).apu_cycle + old(self).cpu.cycle <= u16::MAX,
        ensures
            ticks == (old(self).apu_cycle + old(self).cpu.cycle) / (APU_UPDATE_CYCLE as int),
            final(self).apu_cycle == (old(self).apu_cycle + old(self).cpu.cycle) % (
            APU_UPDATE_CYCLE as int),
            final(self).cpu == old(self).cpu,
            final(self).ppu_cycle == old(self).ppu_cycle,
            final(self).drawing_line == old(self).drawing_line,
            final(self).pad_data == old(self).pad_data,
            final(self).texture_buffer == old(self).texture_buffer,
    {
        self.inc_apu_cycle();
        let ghost total = self.apu_cycle as int;
        let mut ticks: u16 = 0;
        while self.apu_cycle >= APU_UPDATE_CYCLE
            invariant
                APU_UPDATE_CYCLE > 0,
                total == self.apu_cycle + ticks * (APU_UPDATE_CYCLE as int),
                0 <= total <= u16::MAX,
                self.cpu == old(self).cpu,
                self.ppu_cycle == old(self).ppu_cycle,
                self.drawing_line == old(self).drawing_line,
                self.pad_data == old(self).pad_data,
                self.texture_buffer == old(self).texture_buffer,
            decreases self.apu_cycle,
        {
            self.apu_cycle -= APU_UPDATE_CYCLE;
            assert((ticks + 1) * (APU_UPDATE_CYCLE as int) == ticks * (APU_UPDATE_CYCLE as int)
                + APU_UPDATE_CYCLE) by (nonlinear_arith);
            assert(ticks + 1 <= u16::MAX) by (nonlinear_arith)
                requires
                    (ticks + 1) * (APU_UPDATE_CYCLE as int) <= total,
                    total <= u16::MAX,
                    APU_UPDATE_CYCLE > 0,
            ;
            ticks += 1;
        }
        proof {
            vstd::arithmetic::div_mod::lemma_fundamental_div_mod_converse(
                total,
                APU_UPDATE_CYCLE as int,
                ticks as int,
                self.apu_cycle as int,
            );
        }
        ticks
    }

    /// The line being drawn is the first line of the vertical blank.
    fn is_just_in_vblank_line(&self) -> (r: bool)
        ensures
            r == (self.drawing_line == VBLANK_LINE),
    {
        self.drawing_line == VBLANK_LINE
    }

    /// The line is far enough down for the lower half of a tall sprite.
    fn enable_render_bottom(&self) -> (r: bool)
        ensures
            r == (self.drawing_line >= 8),
    {
        self.drawing_line >= 8
    }

    /// The nametable PPUCTRL selects, as its horizontal and vertical halves.
    pub fn refers_base_nametable(&self) -> (r: (bool, bool))
        ensures
            r == ({
                let t = self.cpu.bus.cpu_bus.ppu_register.internal_registers.temporary_vram;
                (t & 0x400 != 0, t & 0x800 != 0)
            }),
    {
        let t = self.cpu.bus.cpu_bus.ppu_register.internal_registers.temporary_vram;
        let base_name_table_addr = (t & 0b0000110000000000) >> 10;
        assert(base_name_table_addr < 4 && (base_name_table_addr == 0 ==> (t & 0x400 == 0 && t
            & 0x800 == 0)) && (base_name_table_addr == 1 ==> (t & 0x400 != 0 && t & 0x800 == 0))
            && (base_name_table_addr == 2 ==> (t & 0x400 == 0 && t & 0x800 != 0)) && (
        base_name_table_addr == 3 ==> (t & 0x400 != 0 && t & 0x800 != 0))) by (bit_vector)
            requires
                base_name_table_addr == (t & 0b0000110000000000) >> 10,
        ;
        match base_name_table_addr {
            0b00 => (false, false),
            0b01 => (true, false),
            0b10 => (false, true),
            _ => (true, true),
        }
    }

    /// The address of the nametable PPUCTRL selects.
    fn build_base_nametable_addr(&self) -> (r: u16)
        ensures
            r == base_nametable(self.cpu.bus.cpu_bus.ppu_register.internal_registers.temporary_vram),
    {
        let mut base_addr = 0x2000;
        let (additional_x, additional_y) = self.refers_base_nametable();

        if additional_x {
            base_addr += 0x400;
        }

        if additional_y {
            base_addr += 0x800;
        }

        base_addr
    }

    /// The nametable address of the tile `data` columns right of the
    /// scroll position on the line being drawn.
    fn calc_tile_idx(&self, x: u16, y: u16, data: u16) -> (r: u16)
        requires
            x / 8 + data <= u16::MAX,
            y + self.drawing_line <= u16::MAX,
            (y + self.drawing_line) / 8 * 0x20 <= u16::MAX,
            tile_addr(
                base_nametable(self.cpu.bus.cpu_bus.ppu_register.internal_registers.temporary_vram),
                x,
                y,
                data,
                self.drawing_line,
            ) <= u16::MAX,
        ensures
            r == tile_addr(
                base_nametable(self.cpu.bus.cpu_bus.ppu_register.internal_registers.temporary_vram),
                x,
                y,
                data,
                self.drawing_line,
            ),
    {
        let mut base_addr = self.build_base_nametable_addr();
        let ghost base0 = base_addr;
        let mut x = x / 8 + data;
        let mut y = ((y + self.drawing_line) / 8) * 0x20;
        let ghost x1 = x as int;
        let ghost y1 = y as int;
        let ghost tx = wraps(x1, 0x1F, 0x20);
        let ghost ty = wraps(y1, 0x3A0, 0x3C0);
        proof {
            crate::util::lemma_xor_twice(base0, 0x400);
        }

        if x > 0x1F {
            x -= 0x20;
            base_addr ^= 0x400;
            if x > 0x1F {
                x -= 0x20;
                base_addr ^= 0x400;
            }
        }
        assert(x == x1 - 0x20 * tx);
        assert(base_addr == base0 ^ (if tx == 1 {
            0x400u16
        } else {
            0
        }));
        let ghost base1 = base_addr;
        proof {
            crate::util::lemma_xor_twice(base1, 0x800);
        }

        if y > 0x3A0 {
            y -= 0x3C0;
            base_addr ^= 0x800;
            if y > 0x3A0 {
                y -= 0x3C0;
                base_addr ^= 0x800;
            }
        }
        assert(y == y1 - 0x3C0 * ty);
        assert(base_addr == base1 ^ (if ty == 1 {
            0x800u16
        } else {
            0
        }));
        base_addr + x + y
    }

    /// The nametable addresses of the 33 tiles a line shows, from the
    /// scroll position on.
    fn refers_tile_nametable(&self, scrolled_x: u16, scrolled_y: u16) -> (r: [usize; 33])
        requires
            scrolled_x <= 0xFF,
            scrolled_y <= 0xFF,
            self.drawing_line <= 0xFF,
        ensures
            forall|i: int|
                0 <= i < 33 ==> r@[i] == tile_addr(
                    base_nametable(
                        self.cpu.bus.cpu_bus.ppu_register.internal_registers.temporary_vram,
                    ),
                    scrolled_x,
                    scrolled_y,
                    i as u16,
                    self.drawing_line,
                ),
    {
        let mut arr: [usize; 33] = [0; 33];
        for i in 0..33u16
            invariant
                scrolled_x <= 0xFF,
                scrolled_y <= 0xFF,
                self.drawing_line <= 0xFF,
                forall|j: int|
                    0 <= j < i ==> arr@[j] == tile_addr(
                        base_nametable(
                            self.cpu.bus.cpu_bus.ppu_register.internal_registers.temporary_vram,
                        ),
                        scrolled_x,
                        scrolled_y,
                        j as u16,
                        self.drawing_line,
                    ),
        {
            proof {
                lemma_tile_addr_in_name_table(
                    self.cpu.bus.cpu_bus.ppu_register.internal_registers.temporary_vram,
                    scrolled_x,
                    scrolled_y,
                    i,
                    self.drawing_line,
                );
            }
            let x = self.calc_tile_idx(scrolled_x, scrolled_y, i);
            arr[i as usize] = x as usize;
        }

        arr
    }

    /// The colour index of dot `shift_count` of a background tile row, the
    /// X position `x_per_tile` dots into tile `tile_idx`, and the line.
    fn build_background_dot_info(
        &mut self,
        background_row: u8,
        background_high: u8,
        tile_idx: usize,
        shift_count: u32,
        x_per_tile: u32,
    ) -> (r: (u16, u8, u8))
        requires
            shift_count < 8,
            x_per_tile + tile_idx * 8 <= u32::MAX,
        ensures
            r.0 == pixel_index(background_row, background_high, shift_count),
            r.1 == ((x_per_tile + tile_idx * 8) % 256) as u8,
            r.2 == (old(self).drawing_line % 256) as u8,
            *final(self) == *old(self),
    {
        let row_idx: u16 = if background_row & (0b1 << shift_count) != 0 {
            1
        } else {
            0
        };
        let high_idx: u16 = if background_high & (0b1 << shift_count) != 0 {
            1
        } else {
            0
        };
        let idx = high_idx << 1 | row_idx;
        proof {
            crate::util::lemma_two_bits(high_idx, row_idx);
        }
        let x32 = x_per_tile + tile_idx as u32 * 8;
        let x = (#[verifier::truncate] (x32 as u8));
        let line = self.drawing_line;
        let y = (#[verifier::truncate] (line as u8));
        proof {
            crate::util::lemma_low_byte_u32(x32);
            crate::util::lemma_low_byte_u16(line);
        }
        (idx, x, y)
    }

    /// The offset of a nametable address from the start of its nametable.
    fn calc_relative_addr_with_base_nametable(&self, nametable: usize) -> (r: usize)
        requires
            in_name_table(nametable as int),
        ensures
            r == nametable - name_table_base(nametable as int),
    {
        let addr = match nametable {
            0x2000..=0x23BF => nametable - 0x2000,
            0x2400..=0x27BF => nametable - 0x2400,
            0x2800..=0x2BBF => nametable - 0x2800,
            _ => nametable - 0x2C00,
        };
        assert(addr & 0xFFF == addr) by (bit_vector)
            requires
                addr < 0x3C0,
        ;
        addr & 0xFFF
    }

    /// The start of the attribute table of the nametable that holds
    /// `nametable`.
    fn pick_attr_base_addr(&mut self, nametable: usize) -> (r: usize)
        requires
            in_name_table(nametable as int),
        ensures
            r == name_table_base(nametable as int) + 0x3C0,
            *final(self) == *old(self),
    {
        match nametable {
            0x2000..=0x23BF => 0x23C0,
            0x2400..=0x27BF => 0x27C0,
            0x2800..=0x2BBF => 0x2BC0,
            _ => 0x2FC0,
        }
    }

    /// The palette offset the attribute table gives the tile at
    /// `nametable`.
    fn build_attr_idx(&mut self, nametable: usize) -> (r: usize)
        requires
            in_name_table(nametable as int),
        ensures
            r == attr_palette(
                ppu_map_read(old(self).cpu.bus.ppu.map@, attr_cell(nametable as int) as u16) as usize,
                attr_quadrant(nametable as int) as usize,
            ),
            r <= 12,
            *final(self) == *old(self),
    {
        assert((nametable & 0x1F) == nametable % 32) by (bit_vector);
        let corner_idx = (nametable & 0x1F) / 4;
        let addr_relative_with_base_nametable = self.calc_relative_addr_with_base_nametable(
            nametable,
        );

        let relative_idx = (((addr_relative_with_base_nametable / 0x40) % 2) * 2) + ((nametable
            & 0x1F) / 2) % 2;
        let belongs_attr_idx = self.pick_attr_base_addr(nametable) + (
        addr_relative_with_base_nametable / 0x80) * 8 + corner_idx;
        let belongs_palette = self.cpu.bus.ppu.map.addr(belongs_attr_idx as u16) as usize;
        assert(((belongs_palette & (0b11usize << relative_idx * 2)) >> (relative_idx * 2)) <= 3)
            by (bit_vector)
            requires
                relative_idx <= 3,
        ;
        ((belongs_palette & (0b11 << relative_idx * 2)) >> (relative_idx * 2)) * 4
    }

    /// The colour of a background dot: palette entry `attr_idx +
    /// pallete_idx` of the background palettes, in greyscale if the mask
    /// asks for it.
    fn calc_background_color_idx(&mut self, attr_idx: usize, pallete_idx: u16) -> (r: usize)
        requires
            attr_idx <= 12,
            pallete_idx <= 3,
        ensures
            r == gray_masked(
                ppu_map_read(old(self).cpu.bus.ppu.map@, (0x3F00 + attr_idx + pallete_idx) as u16),
                old(self).cpu.bus.cpu_bus.ppu_register.ppu_mask.gray_scale,
            ),
            *final(self) == *old(self),
    {
        let mut sprite_color_idx = self.cpu.bus.ppu.map.addr(
            0x3F00 as u16 + attr_idx as u16 + pallete_idx,
        ) as usize;
        if self.cpu.bus.cpu_bus.ppu_register.ppu_mask.gray_scale {
            sprite_color_idx &= 0b11110000;
        }
        sprite_color_idx
    }

    /// The two bit planes of the row of the background tile at
    /// `tile_nametable` that the line being drawn shows.
    fn pick_row_high_tile_background(&mut self, tile_nametable: usize, scrolled_y: u16) -> (r: (
        u8,
        u8,
    ))
        requires
            tile_nametable < 0x4000,
            scrolled_y + old(self).drawing_line <= u16::MAX,
        ensures
            r == ({
                let m = old(self).cpu.bus.ppu.map@;
                let a = tile_row_addr(
                    ppu_map_read(m, tile_nametable as u16),
                    (scrolled_y + old(self).drawing_line) % 8,
                    old(self).cpu.bus.cpu_bus.ppu_register.ppu_ctrl.bk_table_addr,
                );
                (ppu_map_read(m, a as u16), ppu_map_read(m, (a + 8) as u16))
            }),
            *final(self) == *old(self),
    {
        let background_idx = self.cpu.bus.ppu.map.addr(tile_nametable as u16) as u16;
        let deep_idx: u16 = if self.cpu.bus.cpu_bus.ppu_register.ppu_ctrl.is_deep_bk_index() {
            0x1000
        } else {
            0
        };

        let base_addr = background_idx as u16 * 0x10 + (scrolled_y + self.drawing_line) % 8
            + deep_idx;
        let row = self.cpu.bus.ppu.map.addr(base_addr);
        let high = self.cpu.bus.ppu.map.addr(base_addr + 0x8);
        (row, high)
    }

    /// Paints the last `left_x_ratio` dots of the background tile at
    /// `nametable` as the left part of tile `tile_idx` of the line.
    fn build_left_background_tile(
        &mut self,
        nametable: usize,
        tile_idx: usize,
        attr_idx: usize,
        left_x_ratio: u32,
        scrolled_y: u16,
    )
        requires
            nametable < 0x4000,
            scrolled_y + old(self).drawing_line <= u16::MAX,
            left_x_ratio <= 8,
            tile_idx < 0x1000_0000,
            attr_idx <= 12,
            palette_ok(old(self).cpu.bus.ppu.map@),
            old(self).texture_buffer.colors_of().len() == 64,
            row_fits(TILE_COUNTS_ON_WIDTH as int, (old(self).drawing_line % 256) as u8),
            TILE_COUNTS_ON_WIDTH as int * 24 <= usize::MAX,
        ensures
            final(self).texture_buffer.buffer@ == paint_dots(
                old(self).texture_buffer.buffer@,
                TILE_COUNTS_ON_WIDTH as int,
                (old(self).drawing_line % 256) as u8,
                left_dots(
                    old(self).cpu.bus.ppu.map@,
                    old(self).cpu.bus.cpu_bus.ppu_register.ppu_mask.gray_scale,
                    bg_row(
                        old(self).cpu.bus.ppu.map@,
                        nametable as int,
                        scrolled_y,
                        old(self).drawing_line,
                        old(self).cpu.bus.cpu_bus.ppu_register.ppu_ctrl.bk_table_addr,
                    ),
                    tile_idx as int,
                    attr_idx as int,
                    left_x_ratio as int,
                ),
                old(self).texture_buffer.colors_of(),
            ),
            final(self).texture_buffer.colors_of() == old(self).texture_buffer.colors_of(),
            final(self).cpu == old(self).cpu,
            final(self).drawing_line == old(self).drawing_line,
            final(self).ppu_cycle == old(self).ppu_cycle,
            final(self).apu_cycle == old(self).apu_cycle,
            final(self).pad_data == old(self).pad_data,
    {
        let (background_row, background_high) = self.pick_row_high_tile_background(
            nametable,
            scrolled_y,
        );
        let ghost dots = left_dots(
            self.cpu.bus.ppu.map@,
            self.cpu.bus.cpu_bus.ppu_register.ppu_mask.gray_scale,
            (background_row, background_high),
            tile_idx as int,
            attr_idx as int,
            left_x_ratio as int,
        );
        let ghost b0 = self.texture_buffer.buffer@;
        assert(dots.take(0) =~= Seq::<(u8, usize)>::empty());
        for i in 0..left_x_ratio
            invariant
                left_x_ratio <= 8,
                tile_idx < 0x1000_0000,
                attr_idx <= 12,
                self.cpu == old(self).cpu,
                self.drawing_line == old(self).drawing_line,
                self.ppu_cycle == old(self).ppu_cycle,
                self.apu_cycle == old(self).apu_cycle,
                self.pad_data == old(self).pad_data,
                self.texture_buffer.colors_of() == old(self).texture_buffer.colors_of(),
                palette_ok(self.cpu.bus.ppu.map@),
                self.texture_buffer.colors_of().len() == 64,
                row_fits(TILE_COUNTS_ON_WIDTH as int, (self.drawing_line % 256) as u8),
                TILE_COUNTS_ON_WIDTH as int * 24 <= usize::MAX,
                dots == left_dots(
                    self.cpu.bus.ppu.map@,
                    self.cpu.bus.cpu_bus.ppu_register.ppu_mask.gray_scale,
                    (background_row, background_high),
                    tile_idx as int,
                    attr_idx as int,
                    left_x_ratio as int,
                ),
                self.texture_buffer.buffer@ == paint_dots(
                    b0,
                    TILE_COUNTS_ON_WIDTH as int,
                    (self.drawing_line % 256) as u8,
                    dots.take(i as int),
                    self.texture_buffer.colors_of(),
                ),
        {
            let (palette_idx, x, y) = self.build_background_dot_info(
                background_row,
                background_high,
                tile_idx,
                left_x_ratio - 1 - i,
                i,
            );
            let sprite_color_idx = self.calc_background_color_idx(attr_idx, palette_idx);
            proof {
                lemma_gray_masked_color(
                    self.cpu.bus.ppu.map@,
                    self.cpu.bus.cpu_bus.ppu_register.ppu_mask.gray_scale,
                    attr_idx as int,
                    palette_idx as int,
                );
                assert(dots.take(i + 1).drop_last() =~= dots.take(i as int));
                assert(dots.take(i + 1).last() == dots[i as int]);
            }
            self.texture_buffer.insert_color(x, y, sprite_color_idx);
        }
        assert(dots.take(left_x_ratio as int) =~= dots);
    }

    /// Paints the first `right_x_ratio` dots of the background tile at
    /// `nametable` as the right part of tile `tile_idx` of the line.
    fn build_right_background_tile(
        &mut self,
        nametable: usize,
        tile_idx: usize,
        attr_idx: usize,
        left_x_ratio: u32,
        right_x_ratio: u32,
        scrolled_y: u16,
    )
        requires
            nametable < 0x4000,
            scrolled_y + old(self).drawing_line <= u16::MAX,
            left_x_ratio + right_x_ratio == 8,
            tile_idx < 0x1000_0000,
            attr_idx <= 12,
            palette_ok(old(self).cpu.bus.ppu.map@),
            old(self).texture_buffer.colors_of().len() == 64,
            row_fits(TILE_COUNTS_ON_WIDTH as int, (old(self).drawing_line % 256) as u8),
            TILE_COUNTS_ON_WIDTH as int * 24 <= usize::MAX,
        ensures
            final(self).texture_buffer.buffer@ == paint_dots(
                old(self).texture_buffer.buffer@,
                TILE_COUNTS_ON_WIDTH as int,
                (old(self).drawing_line % 256) as u8,
                right_dots(
                    old(self).cpu.bus.ppu.map@,
                    old(self).cpu.bus.cpu_bus.ppu_register.ppu_mask.gray_scale,
                    bg_row(
                        old(self).cpu.bus.ppu.map@,
                        nametable as int,
                        scrolled_y,
                        old(self).drawing_line,
                        old(self).cpu.bus.cpu_bus.ppu_register.ppu_ctrl.bk_table_addr,
                    ),
                    tile_idx as int,
                    attr_idx as int,
                    left_x_ratio as int,
                    right_x_ratio as int,
                ),
                old(self).texture_buffer.colors_of(),
            ),
            final(self).texture_buffer.colors_of() == old(self).texture_buffer.colors_of(),
            final(self).cpu == old(self).cpu,
            final(self).drawing_line == old(self).drawing_line,
            final(self).ppu_cycle == old(self).ppu_cycle,
            final(self).apu_cycle == old(self).apu_cycle,
            final(self).pad_data == old(self).pad_data,
    {
        let (background_row, background_high) = self.pick_row_high_tile_background(
            nametable,
            scrolled_y,
        );
        let ghost dots = right_dots(
            self.cpu.bus.ppu.map@,
            self.cpu.bus.cpu_bus.ppu_register.ppu_mask.gray_scale,
            (background_row, background_high),
            tile_idx as int,
            attr_idx as int,
            left_x_ratio as int,
            right_x_ratio as int,
        );
        let ghost b0 = self.texture_buffer.buffer@;
        assert(dots.take(0) =~= Seq::<(u8, usize)>::empty());
        for i in 0..right_x_ratio
            invariant
                left_x_ratio + right_x_ratio == 8,
                tile_idx < 0x1000_0000,
                attr_idx <= 12,
                self.cpu == old(self).cpu,
                self.drawing_line == old(self).drawing_line,
                self.ppu_cycle == old(self).ppu_cycle,
                self.apu_cycle == old(self).apu_cycle,
                self.pad_data == old(self).pad_data,
                self.texture_buffer.colors_of() == old(self).texture_buffer.colors_of(),
                palette_ok(self.cpu.bus.ppu.map@),
                self.texture_buffer.colors_of().len() == 64,
                row_fits(TILE_COUNTS_ON_WIDTH as int, (self.drawing_line % 256) as u8),
                TILE_COUNTS_ON_WIDTH as int * 24 <= usize::MAX,
                dots == right_dots(
                    self.cpu.bus.ppu.map@,
                    self.cpu.bus.cpu_bus.ppu_register.ppu_mask.gray_scale,
                    (background_row, background_high),
                    tile_idx as int,
                    attr_idx as int,
                    left_x_ratio as int,
                    right_x_ratio as int,
                ),
                self.texture_buffer.buffer@ == paint_dots(
                    b0,
                    TILE_COUNTS_ON_WIDTH as int,
                    (self.drawing_line % 256) as u8,
                    dots.take(i as int),
                    self.texture_buffer.colors_of(),
                ),
        {
            let (palette_idx, x, y) = self.build_background_dot_info(
                background_row,
                background_high,
                tile_idx,
                7 - i,
                left_x_ratio + i,
            );
            let sprite_color_idx = self.calc_background_color_idx(attr_idx, palette_idx);
            proof {
                lemma_gray_masked_color(
                    self.cpu.bus.ppu.map@,
                    self.cpu.bus.cpu_bus.ppu_register.ppu_mask.gray_scale,
                    attr_idx as int,
                    palette_idx as int,
                );
                assert(dots.take(i + 1).drop_last() =~= dots.take(i as int));
                assert(dots.take(i + 1).last() == dots[i as int]);
            }
            self.texture_buffer.insert_color(x, y, sprite_color_idx);
        }
        assert(dots.take(right_x_ratio as int) =~= dots);
    }

    /// Paints the background dots of the line, tile by tile, from the
    /// nametable addresses of the tiles it shows.
    fn build_background_tiles(
        &mut self,
        tile_nametables: [usize; 33],
        scrolled_x: u16,
        scrolled_y: u16,
    )
        requires
            TILE_COUNTS_ON_WIDTH <= 32,
            forall|i: int| 0 <= i < 33 ==> in_name_table(#[trigger] tile_nametables@[i] as int),
            scrolled_y + old(self).drawing_line <= u16::MAX,
            palette_ok(old(self).cpu.bus.ppu.map@),
            old(self).texture_buffer.colors_of().len() == 64,
            row_fits(TILE_COUNTS_ON_WIDTH as int, (old(self).drawing_line % 256) as u8),
            TILE_COUNTS_ON_WIDTH as int * 24 <= usize::MAX,
        ensures
            final(self).texture_buffer.buffer@ == paint_dots(
                old(self).texture_buffer.buffer@,
                TILE_COUNTS_ON_WIDTH as int,
                (old(self).drawing_line % 256) as u8,
                background_dots(
                    old(self).cpu.bus.ppu.map@,
                    old(self).cpu.bus.cpu_bus.ppu_register.ppu_mask.gray_scale,
                    old(self).cpu.bus.cpu_bus.ppu_register.ppu_ctrl.bk_table_addr,
                    tile_nametables@,
                    scrolled_x,
                    scrolled_y,
                    old(self).drawing_line,
                    TILE_COUNTS_ON_WIDTH as int,
                ),
                old(self).texture_buffer.colors_of(),
            ),
            final(self).texture_buffer.colors_of() == old(self).texture_buffer.colors_of(),
            final(self).cpu == old(self).cpu,
            final(self).drawing_line == old(self).drawing_line,
            final(self).ppu_cycle == old(self).ppu_cycle,
            final(self).apu_cycle == old(self).apu_cycle,
            final(self).pad_data == old(self).pad_data,
    {
        let (left_x_ratio, right_x_ratio) = calc_scrolled_tile_ratio(scrolled_x);
        let ghost b0 = self.texture_buffer.buffer@;
        let ghost m = self.cpu.bus.ppu.map@;
        let ghost gray = self.cpu.bus.cpu_bus.ppu_register.ppu_mask.gray_scale;
        let ghost deep = self.cpu.bus.cpu_bus.ppu_register.ppu_ctrl.bk_table_addr;
        let ghost w = TILE_COUNTS_ON_WIDTH as int;
        let ghost y = (self.drawing_line % 256) as u8;
        let ghost colors = self.texture_buffer.colors_of();
        for tile_idx in 0..TILE_COUNTS_ON_WIDTH as usize
            invariant
                TILE_COUNTS_ON_WIDTH <= 32,
                forall|i: int| 0 <= i < 33 ==> in_name_table(#[trigger] tile_nametables@[i] as int),
                scrolled_y + self.drawing_line <= u16::MAX,
                left_x_ratio == 8 - scrolled_x % 8,
                right_x_ratio == scrolled_x % 8,
                self.cpu == old(self).cpu,
                self.drawing_line == old(self).drawing_line,
                self.ppu_cycle == old(self).ppu_cycle,
                self.apu_cycle == old(self).apu_cycle,
                self.pad_data == old(self).pad_data,
                self.texture_buffer.colors_of() == colors,
                m == self.cpu.bus.ppu.map@,
                gray == self.cpu.bus.cpu_bus.ppu_register.ppu_mask.gray_scale,
                deep == self.cpu.bus.cpu_bus.ppu_register.ppu_ctrl.bk_table_addr,
                w == TILE_COUNTS_ON_WIDTH as int,
                y == (self.drawing_line % 256) as u8,
                palette_ok(m),
                colors.len() == 64,
                row_fits(w, y),
                w * 24 <= usize::MAX,
                self.texture_buffer.buffer@ == paint_dots(
                    b0,
                    w,
                    y,
                    background_dots(
                        m,
                        gray,
                        deep,
                        tile_nametables@,
                        scrolled_x,
                        scrolled_y,
                        self.drawing_line,
                        tile_idx as int,
                    ),
                    colors,
                ),
        {
            let (left_nametable, right_nametable) = {
                (tile_nametables[tile_idx], tile_nametables[tile_idx + 1])
            };
            let (left_attr_idx, right_attr_idx) = (
                self.build_attr_idx(left_nametable),
                self.build_attr_idx(right_nametable),
            );
            let ghost before = self.texture_buffer.buffer@;

            self.build_left_background_tile(
                left_nametable,
                tile_idx,
                left_attr_idx,
                left_x_ratio,
                scrolled_y,
            );
            let ghost middle = self.texture_buffer.buffer@;
            self.build_right_background_tile(
                right_nametable,
                tile_idx,
                right_attr_idx,
                left_x_ratio,
                right_x_ratio,
                scrolled_y,
            );
            proof {
                let prev = background_dots(
                    m,
                    gray,
                    deep,
                    tile_nametables@,
                    scrolled_x,
                    scrolled_y,
                    self.drawing_line,
                    tile_idx as int,
                );
                let ld = left_dots(
                    m,
                    gray,
                    bg_row(m, left_nametable as int, scrolled_y, self.drawing_line, deep),
                    tile_idx as int,
                    left_attr_idx as int,
                    left_x_ratio as int,
                );
                let rd = right_dots(
                    m,
                    gray,
                    bg_row(m, right_nametable as int, scrolled_y, self.drawing_line, deep),
                    tile_idx as int,
                    right_attr_idx as int,
                    left_x_ratio as int,
                    right_x_ratio as int,
                );
                texture::lemma_paint_concat(b0, w, y, prev, ld, colors);
                texture::lemma_paint_concat(b0, w, y, prev + ld, rd, colors);
                assert(background_dots(
                    m,
                    gray,
                    deep,
                    tile_nametables@,
                    scrolled_x,
                    scrolled_y,
                    self.drawing_line,
                    tile_idx + 1,
                ) == prev + ld + rd);
            }
        }
    }

    /// Paints the background of the line being drawn.
    fn insert_background_line(&mut self)
        requires
            TILE_COUNTS_ON_WIDTH <= 32,
            old(self).drawing_line <= 0xFF,
            palette_ok(old(self).cpu.bus.ppu.map@),
            old(self).texture_buffer.colors_of().len() == 64,
            row_fits(TILE_COUNTS_ON_WIDTH as int, (old(self).drawing_line % 256) as u8),
            TILE_COUNTS_ON_WIDTH as int * 24 <= usize::MAX,
        ensures
            final(self).texture_buffer.buffer@ == paint_dots(
                old(self).texture_buffer.buffer@,
                TILE_COUNTS_ON_WIDTH as int,
                (old(self).drawing_line % 256) as u8,
                line_background(
                    old(self).cpu.bus.ppu.map@,
                    old(self).cpu.bus.cpu_bus.ppu_register,
                    old(self).drawing_line,
                    TILE_COUNTS_ON_WIDTH as int,
                ),
                old(self).texture_buffer.colors_of(),
            ),
            final(self).texture_buffer.colors_of() == old(self).texture_buffer.colors_of(),
            final(self).cpu == old(self).cpu,
            final(self).drawing_line == old(self).drawing_line,
            final(self).ppu_cycle == old(self).ppu_cycle,
            final(self).apu_cycle == old(self).apu_cycle,
            final(self).pad_data == old(self).pad_data,
    {
        let (scrolled_x, scrolled_y) = self.get_scroll_addrs();
        let tile_nametables = self.refers_tile_nametable(scrolled_x, scrolled_y);
        proof {
            let t = self.cpu.bus.cpu_bus.ppu_register.internal_registers.temporary_vram;
            assert forall|i: int| 0 <= i < 33 implies in_name_table(
                #[trigger] tile_nametables@[i] as int,
            ) by {
                lemma_tile_addr_in_name_table(
                    t,
                    scrolled_x,
                    scrolled_y,
                    i as u16,
                    self.drawing_line,
                );
            }
            assert(tile_nametables@ =~= line_nametables(
                self.cpu.bus.cpu_bus.ppu_register,
                self.drawing_line,
            ));
        }

        self.build_background_tiles(tile_nametables, scrolled_x, scrolled_y);
    }

    /// Adds the eight dots of a sprite row to the colour table: an X
    /// position keeps the colour of its first opaque dot, and an opaque dot
    /// of a front sprite raises the sprite-zero hit.
    #[verifier::spinoff_prover]
    #[verifier::rlimit(40)]
    fn draw_sprite_row(
        &mut self,
        color_info: &mut ColorTable,
        sp: SpriteInfo,
        sprite_row: u8,
        sprite_high: u8,
        flip: bool,
        Ghost(prev): Ghost<Seq<Option<SpriteDot>>>,
    )
        requires
            sp.attr.palette < 4,
            palette_ok(old(self).cpu.bus.ppu.map@),
            table_colors_ok(color_table(*old(color_info))),
            color_table(*old(color_info)) == first_colors(prev),
        ensures
            ({
                let d = row_dots(
                    sp,
                    old(self).cpu.bus.ppu.map@,
                    old(self).cpu.bus.cpu_bus.ppu_register.ppu_mask.gray_scale,
                    sprite_row,
                    sprite_high,
                    flip,
                );
                &&& color_table(*final(color_info)) == first_colors(prev + d)
                &&& final(self).cpu == with_sprite_zero_hit(
                    old(self).cpu,
                    old(self).cpu.bus.cpu_bus.ppu_register.ppu_status.sprite_zero_hit || hits_zero(
                        d,
                    ),
                )
            }),
            table_colors_ok(color_table(*final(color_info))),
            final(self).texture_buffer == old(self).texture_buffer,
            final(self).drawing_line == old(self).drawing_line,
            final(self).ppu_cycle == old(self).ppu_cycle,
            final(self).apu_cycle == old(self).apu_cycle,
            final(self).pad_data == old(self).pad_data,
    {
        let ghost m = self.cpu.bus.ppu.map@;
        let ghost gray = self.cpu.bus.cpu_bus.ppu_register.ppu_mask.gray_scale;
        let ghost d = row_dots(sp, m, gray, sprite_row, sprite_high, flip);
        let ghost hit0 = self.cpu.bus.cpu_bus.ppu_register.ppu_status.sprite_zero_hit;
        let gray_scale = self.cpu.bus.cpu_bus.ppu_register.ppu_mask.gray_scale;
        let pallet_base_idx = (sp.attr.palette * 4) as usize;
        proof {
            crate::ppu::mapper::lemma_sprite_palette_cells(self.cpu.bus.ppu.map);
            assert(d.take(0) =~= Seq::<Option<SpriteDot>>::empty());
            assert(prev + d.take(0) =~= prev);
            assert(!hits_zero(d.take(0)));
            assert(with_sprite_zero_hit(old(self).cpu, hit0) == old(self).cpu);
        }
        for j in 0..8u8
            invariant
                m == self.cpu.bus.ppu.map@,
                gray == gray_scale,
                gray == self.cpu.bus.cpu_bus.ppu_register.ppu_mask.gray_scale,
                m.mem.len() == 0x4000,
                forall|q: int|
                    0 <= q < 16 ==> self.cpu.bus.ppu.map.sprite_pallet@[q] == #[trigger] m.mem[0x3F10
                        + q],
                palette_ok(m),
                sp.attr.palette < 4,
                pallet_base_idx == sp.attr.palette * 4,
                d == row_dots(sp, m, gray, sprite_row, sprite_high, flip),
                table_colors_ok(color_table(*color_info)),
                color_table(*color_info) == first_colors(prev + d.take(j as int)),
                self.cpu == with_sprite_zero_hit(old(self).cpu, hit0 || hits_zero(d.take(j as int))),
                self.texture_buffer == old(self).texture_buffer,
                self.drawing_line == old(self).drawing_line,
                self.ppu_cycle == old(self).ppu_cycle,
                self.apu_cycle == old(self).apu_cycle,
                self.pad_data == old(self).pad_data,
        {
            let k: u32 = if flip {
                j as u32
            } else {
                (7 - j) as u32
            };
            let r: u16 = if sprite_row & (0b1 << k) != 0 {
                1
            } else {
                0
            };
            let h: u16 = if sprite_high & (0b1 << k) != 0 {
                1
            } else {
                0
            };
            let idx = h << 1 | r;
            proof {
                crate::util::lemma_two_bits(h, r);
            }
            proof {
                assert(d[j as int] == sprite_dot(
                    sp,
                    m,
                    gray,
                    sprite_row,
                    sprite_high,
                    j as int,
                    k as int,
                ));
                assert(prev + d.take(j + 1) =~= (prev + d.take(j as int)).push(d[j as int]));
                assert(d.take(j + 1) =~= d.take(j as int).push(d[j as int]));
                lemma_dots_push(prev + d.take(j as int), d[j as int]);
                lemma_dots_push(d.take(j as int), d[j as int]);
            }
            if idx != 0 {
                let x = sp.pos_x.wrapping_add(j);
                let pallet_idx = pallet_base_idx + idx as usize;
                let mut color_idx = self.cpu.bus.ppu.map.sprite_pallet[pallet_idx] as usize;
                if gray_scale {
                    color_idx &= 0b11110000;
                }
                proof {
                    let v = self.cpu.bus.ppu.map.sprite_pallet@[pallet_idx as int] as usize;
                    assert(v < 64);
                    crate::util::lemma_clear_low_nibble(v);
                }
                if !self.cpu.bus.cpu_bus.ppu_register.ppu_status.is_occured_sprite_zero_hit()
                    && sp.attr.priority && pallet_idx % 4 != 0 {
                    self.cpu.bus.cpu_bus.ppu_register.ppu_status.true_sprite_zero_hit();
                }
                if !color_table_contains(color_info, x) {
                    color_table_insert(color_info, x, color_idx);
                }
            }
        }
        proof {
            assert(d.take(8) =~= d);
        }
    }

    /// Draws the 8x8 sprites of the secondary OAM on the line being drawn:
    /// each X position takes the colour of the first opaque dot there, and
    /// an opaque dot of a front sprite raises the sprite-zero hit.
    #[verifier::spinoff_prover]
    #[verifier::rlimit(100)]
    fn insert_sprites_for_normal_size(&mut self)
        requires
            TILE_COUNTS_ON_WIDTH as int * 8 <= u32::MAX,
            sprites_drawable(old(self).cpu.bus.ppu.secondary_oam.sprite_infos@, old(self).drawing_line),
            palette_ok(old(self).cpu.bus.ppu.map@),
            old(self).texture_buffer.colors_of().len() == 64,
            row_fits(TILE_COUNTS_ON_WIDTH as int, (old(self).drawing_line % 256) as u8),
            TILE_COUNTS_ON_WIDTH as int * 24 <= usize::MAX,
        ensures
            ({
                let dots = sprite_line_dots(
                    old(self).cpu.bus.ppu.secondary_oam.sprite_infos@,
                    |sp: SpriteInfo|
                        normal_sprite_dots(
                            sp,
                            old(self).cpu.bus.ppu.map@,
                            old(self).cpu.bus.cpu_bus.ppu_register.ppu_mask.gray_scale,
                            old(self).cpu.bus.cpu_bus.ppu_register.ppu_ctrl.sprite_ptn_table_addr,
                            old(self).drawing_line,
                        ),
                    TILE_COUNTS_ON_WIDTH as int * 8,
                );
                &&& final(self).texture_buffer.buffer@ == paint_dots(
                    old(self).texture_buffer.buffer@,
                    TILE_COUNTS_ON_WIDTH as int,
                    (old(self).drawing_line % 256) as u8,
                    table_dots(first_colors(dots), 256),
                    old(self).texture_buffer.colors_of(),
                )
                &&& final(self).cpu == with_sprite_zero_hit(
                    old(self).cpu,
                    old(self).cpu.bus.cpu_bus.ppu_register.ppu_status.sprite_zero_hit || hits_zero(
                        dots,
                    ),
                )
            }),
            final(self).texture_buffer.colors_of() == old(self).texture_buffer.colors_of(),
            final(self).drawing_line == old(self).drawing_line,
            final(self).ppu_cycle == old(self).ppu_cycle,
            final(self).apu_cycle == old(self).apu_cycle,
            final(self).pad_data == old(self).pad_data,
    {
        let ghost so = self.cpu.bus.ppu.secondary_oam.sprite_infos@;
        let ghost m = self.cpu.bus.ppu.map@;
        let ghost gray = self.cpu.bus.cpu_bus.ppu_register.ppu_mask.gray_scale;
        let ghost ptn = self.cpu.bus.cpu_bus.ppu_register.ppu_ctrl.sprite_ptn_table_addr;
        let ghost line = self.drawing_line;
        let ghost f = |sp: SpriteInfo| normal_sprite_dots(sp, m, gray, ptn, line);
        let ghost hit0 = self.cpu.bus.cpu_bus.ppu_register.ppu_status.sprite_zero_hit;
        let ptn_table = self.cpu.bus.cpu_bus.ppu_register.ppu_ctrl.sprite_ptn_table_addr;
        let mut color_info: ColorTable = color_table_new();
        proof {
            assert(color_table(color_info) =~= first_colors(sprite_line_dots(so, f, 0)));
            assert(!hits_zero(sprite_line_dots(so, f, 0)));
            assert(with_sprite_zero_hit(old(self).cpu, hit0) == old(self).cpu);
        }
        for n in 0..TILE_COUNTS_ON_WIDTH * 8
            invariant
                so == self.cpu.bus.ppu.secondary_oam.sprite_infos@,
                m == self.cpu.bus.ppu.map@,
                gray == self.cpu.bus.cpu_bus.ppu_register.ppu_mask.gray_scale,
                ptn == ptn_table,
                ptn == self.cpu.bus.cpu_bus.ppu_register.ppu_ctrl.sprite_ptn_table_addr,
                line == self.drawing_line,
                f == (|sp: SpriteInfo| normal_sprite_dots(sp, m, gray, ptn, line)),
                sprites_drawable(so, line),
                palette_ok(m),
                table_colors_ok(color_table(color_info)),
                color_table(color_info) == first_colors(sprite_line_dots(so, f, n as int)),
                self.cpu == with_sprite_zero_hit(
                    old(self).cpu,
                    hit0 || hits_zero(sprite_line_dots(so, f, n as int)),
                ),
                self.texture_buffer == old(self).texture_buffer,
                self.drawing_line == old(self).drawing_line,
                self.ppu_cycle == old(self).ppu_cycle,
                self.apu_cycle == old(self).apu_cycle,
                self.pad_data == old(self).pad_data,
        {
            let n8 = (#[verifier::truncate] (n as u8));
            proof {
                crate::ppu::oam::lemma_first_at_x_member(so, n8);
            }
            match self.cpu.bus.ppu.secondary_oam.pick_sprite_info_with_x(n8) {
                Some(sp) => {
                    let ghost prev = sprite_line_dots(so, f, n as int);
                    proof {
                        assert(so.contains(sp));
                        assert(((n + 1 - 1) as u8) == n8);
                        assert(sprite_line_dots(so, f, n + 1) == prev + f(sp));
                    }
                    let relative_hight = (self.drawing_line - sp.pos_y as u16) % 8;
                    let base_addr = (if sp.tile_index.bank_of_tile {
                        0x1000u16
                    } else {
                        0
                    }) + (if ptn_table {
                        0x1000u16
                    } else {
                        0
                    }) + (sp.tile_index.tile_number as u16) * 0x10
                        + if sp.attr.flip_sprite_vertically {
                        7 - relative_hight
                    } else {
                        relative_hight
                    };
                    assert(base_addr == normal_sprite_row_addr(sp, ptn, line));
                    let sprite_row = self.cpu.bus.ppu.map.addr(base_addr);
                    let sprite_high = self.cpu.bus.ppu.map.addr(base_addr + 8);
                    let ghost cpu_before = self.cpu;
                    proof {
                        lemma_zero_hit_twice(old(self).cpu, hit0 || hits_zero(prev), false);
                        assert(row_dots(sp, m, gray, sprite_row, sprite_high, sp.attr.flip_sprite_horizontally)
                            == f(sp));
                    }
                    self.draw_sprite_row(
                        &mut color_info,
                        sp,
                        sprite_row,
                        sprite_high,
                        sp.attr.flip_sprite_horizontally,
                        Ghost(prev),
                    );
                    proof {
                        lemma_hits_zero_concat(prev, f(sp));
                        lemma_zero_hit_twice(
                            old(self).cpu,
                            hit0 || hits_zero(prev),
                            hit0 || hits_zero(prev) || hits_zero(f(sp)),
                        );
                    }
                },
                None => {
                    assert(((n + 1 - 1) as u8) == n8);
                    assert(sprite_line_dots(so, f, n + 1) =~= sprite_line_dots(so, f, n as int));
                },
            }
        }
        let line8 = (#[verifier::truncate] (self.drawing_line as u8));
        let ghost l16 = self.drawing_line;
        proof {
            crate::util::lemma_low_byte_u16(l16);
        }
        self.texture_buffer.insert_colors(color_info, line8);
    }

    /// Draws the upper or lower tiles of the 8x16 sprites of the secondary
    /// OAM on the line being drawn: each X position takes the colour of the
    /// first opaque dot there, and an opaque dot of a front sprite raises
    /// the sprite-zero hit.
    #[verifier::spinoff_prover]
    #[verifier::rlimit(100)]
    fn insert_sprites_for_big_size(&mut self, is_bottom: bool)
        requires
            TILE_COUNTS_ON_WIDTH as int * 8 <= u32::MAX,
            sprites_drawable(old(self).cpu.bus.ppu.secondary_oam.sprite_infos@, old(self).drawing_line),
            tiles_below_last(old(self).cpu.bus.ppu.secondary_oam.sprite_infos@),
            palette_ok(old(self).cpu.bus.ppu.map@),
            old(self).texture_buffer.colors_of().len() == 64,
            row_fits(TILE_COUNTS_ON_WIDTH as int, (old(self).drawing_line % 256) as u8),
            TILE_COUNTS_ON_WIDTH as int * 24 <= usize::MAX,
        ensures
            ({
                let dots = sprite_line_dots(
                    old(self).cpu.bus.ppu.secondary_oam.sprite_infos@,
                    |sp: SpriteInfo|
                        big_sprite_dots(
                            sp,
                            old(self).cpu.bus.ppu.map@,
                            old(self).cpu.bus.cpu_bus.ppu_register.ppu_mask.gray_scale,
                            old(self).drawing_line,
                            is_bottom,
                        ),
                    TILE_COUNTS_ON_WIDTH as int * 8,
                );
                &&& final(self).texture_buffer.buffer@ == paint_dots(
                    old(self).texture_buffer.buffer@,
                    TILE_COUNTS_ON_WIDTH as int,
                    (old(self).drawing_line % 256) as u8,
                    table_dots(first_colors(dots), 256),
                    old(self).texture_buffer.colors_of(),
                )
                &&& final(self).cpu == with_sprite_zero_hit(
                    old(self).cpu,
                    old(self).cpu.bus.cpu_bus.ppu_register.ppu_status.sprite_zero_hit || hits_zero(
                        dots,
                    ),
                )
            }),
            final(self).texture_buffer.colors_of() == old(self).texture_buffer.colors_of(),
            final(self).drawing_line == old(self).drawing_line,
            final(self).ppu_cycle == old(self).ppu_cycle,
            final(self).apu_cycle == old(self).apu_cycle,
            final(self).pad_data == old(self).pad_data,
    {
        let ghost so = self.cpu.bus.ppu.secondary_oam.sprite_infos@;
        let ghost m = self.cpu.bus.ppu.map@;
        let ghost gray = self.cpu.bus.cpu_bus.ppu_register.ppu_mask.gray_scale;
        let ghost line = self.drawing_line;
        let ghost f = |sp: SpriteInfo| big_sprite_dots(sp, m, gray, line, is_bottom);
        let ghost hit0 = self.cpu.bus.cpu_bus.ppu_register.ppu_status.sprite_zero_hit;
        let mut color_info: ColorTable = color_table_new();
        proof {
            assert(color_table(color_info) =~= first_colors(sprite_line_dots(so, f, 0)));
            assert(!hits_zero(sprite_line_dots(so, f, 0)));
            assert(with_sprite_zero_hit(old(self).cpu, hit0) == old(self).cpu);
        }
        for n in 0..TILE_COUNTS_ON_WIDTH * 8
            invariant
                so == self.cpu.bus.ppu.secondary_oam.sprite_infos@,
                m == self.cpu.bus.ppu.map@,
                gray == self.cpu.bus.cpu_bus.ppu_register.ppu_mask.gray_scale,
                line == self.drawing_line,
                f == (|sp: SpriteInfo| big_sprite_dots(sp, m, gray, line, is_bottom)),
                sprites_drawable(so, line),
                tiles_below_last(so),
                palette_ok(m),
                table_colors_ok(color_table(color_info)),
                color_table(color_info) == first_colors(sprite_line_dots(so, f, n as int)),
                self.cpu == with_sprite_zero_hit(
                    old(self).cpu,
                    hit0 || hits_zero(sprite_line_dots(so, f, n as int)),
                ),
                self.texture_buffer == old(self).texture_buffer,
                self.drawing_line == old(self).drawing_line,
                self.ppu_cycle == old(self).ppu_cycle,
                self.apu_cycle == old(self).apu_cycle,
                self.pad_data == old(self).pad_data,
        {
            let n8 = (#[verifier::truncate] (n as u8));
            proof {
                crate::ppu::oam::lemma_first_at_x_member(so, n8);
            }
            match self.cpu.bus.ppu.secondary_oam.pick_sprite_info_with_x(n8) {
                Some(sp) => {
                    let ghost prev = sprite_line_dots(so, f, n as int);
                    proof {
                        assert(so.contains(sp));
                        assert(((n + 1 - 1) as u8) == n8);
                        assert(sprite_line_dots(so, f, n + 1) == prev + f(sp));
                    }
                    let relative_hight = (self.drawing_line - sp.pos_y as u16) % 8;
                    let tile = sp.tile_index.tile_number;
                    let base_addr = (if ((tile + 1) % 2) == 0 {
                        0x1000u16
                    } else {
                        0
                    }) + ((tile as u16) / 2) * 0x20 + relative_hight;
                    assert(base_addr == big_sprite_row_addr(sp, line));
                    let (sprite_row, sprite_high) = {
                        if is_bottom {
                            (
                                self.cpu.bus.ppu.map.addr(base_addr + 0x10),
                                self.cpu.bus.ppu.map.addr(base_addr + 0x18),
                            )
                        } else {
                            (
                                self.cpu.bus.ppu.map.addr(base_addr),
                                self.cpu.bus.ppu.map.addr(base_addr + 8),
                            )
                        }
                    };
                    proof {
                        lemma_zero_hit_twice(old(self).cpu, hit0 || hits_zero(prev), false);
                        assert(row_dots(sp, m, gray, sprite_row, sprite_high, false) == f(sp));
                    }
                    self.draw_sprite_row(
                        &mut color_info,
                        sp,
                        sprite_row,
                        sprite_high,
                        false,
                        Ghost(prev),
                    );
                    proof {
                        lemma_hits_zero_concat(prev, f(sp));
                        lemma_zero_hit_twice(
                            old(self).cpu,
                            hit0 || hits_zero(prev),
                            hit0 || hits_zero(prev) || hits_zero(f(sp)),
                        );
                    }
                },
                None => {
                    assert(((n + 1 - 1) as u8) == n8);
                    assert(sprite_line_dots(so, f, n + 1) =~= sprite_line_dots(so, f, n as int));
                },
            }
        }
        let line8 = (#[verifier::truncate] (self.drawing_line as u8));
        let ghost l16 = self.drawing_line;
        proof {
            crate::util::lemma_low_byte_u16(l16);
        }
        self.texture_buffer.insert_colors(color_info, line8);
    }

    /// The scroll position the PPU registers give.
    fn get_scroll_addrs(&self) -> (r: (u16, u16))
        ensures
            r == ({
                let ir = self.cpu.bus.cpu_bus.ppu_register.internal_registers;
                scroll_of(
                    ir.temporary_vram,
                    ir.x_scroll,
                    self.cpu.bus.cpu_bus.ppu_register.ppu_status.sprite_zero_hit,
                )
            }),
            r.0 <= 0xFF,
            r.1 <= 0xFF,
    {
        let ppu_register = &self.cpu.bus.cpu_bus.ppu_register;

        let scrolled_x = {
            let l_data = if ppu_register.ppu_status.is_occured_sprite_zero_hit() {
                ppu_register.internal_registers.x_scroll
            } else {
                0
            };
            let h_data = (ppu_register.internal_registers.temporary_vram & 0b00011111) << 3;
            h_data | l_data as u16
        };

        let scrolled_y = {
            let bottom_data = (ppu_register.internal_registers.temporary_vram & 0b0111000000000000)
                >> 12;
            let middle_data = ((ppu_register.internal_registers.temporary_vram & 0b011100000) >> 5)
                << 3;
            let high_data = ((ppu_register.internal_registers.temporary_vram & 0b0000001100000000)
                >> 8) << 6;

            high_data | middle_data | bottom_data
        };
        let t = ppu_register.internal_registers.temporary_vram;
        let l_data = if ppu_register.ppu_status.is_occured_sprite_zero_hit() {
            ppu_register.internal_registers.x_scroll
        } else {
            0
        };
        assert(scrolled_x <= 0xFF && scrolled_y <= 0xFF) by (bit_vector)
            requires
                scrolled_x == ((t & 0b00011111) << 3u16) | l_data as u16,
                scrolled_y == ((((t & 0b0000001100000000) >> 8u16) << 6u16) | (((t & 0b011100000)
                    >> 5u16) << 3u16) | ((t & 0b0111000000000000) >> 12u16)),
        ;
        (scrolled_x, scrolled_y)
    }
}

/// With the scroll position and the line within a screen, every tile a
/// line shows lies in one of the four nametables.
pub proof fn lemma_tile_addr_in_name_table(t: u16, x: u16, y: u16, data: u16, line: u16)
    requires
        x <= 0xFF,
        y <= 0xFF,
        data <= 32,
        line <= 0xFF,
    ensures
        in_name_table(tile_addr(base_nametable(t), x, y, data, line)),
{
    let base = base_nametable(t);
    let x1 = x / 8 + data;
    let y1 = ((y + line) / 8) * 0x20;
    let tx = wraps(x1 as int, 0x1F, 0x20);
    let ty = wraps(y1 as int, 0x3A0, 0x3C0);
    assert(base == 0x2000 || base == 0x2400 || base == 0x2800 || base == 0x2C00);
    let b1 = base ^ 0x400u16;
    let b2 = base ^ 0x800u16;
    let b3 = b1 ^ 0x800u16;
    assert((b1 == 0x2000 || b1 == 0x2400 || b1 == 0x2800 || b1 == 0x2C00) && (b2 == 0x2000 || b2
        == 0x2400 || b2 == 0x2800 || b2 == 0x2C00) && (b3 == 0x2000 || b3 == 0x2400 || b3
        == 0x2800 || b3 == 0x2C00) && (base ^ 0u16) == base && (b1 ^ 0u16) == b1 && (0u16 ^ 0u16)
        == 0u16) by (bit_vector)
        requires
            base == 0x2000 || base == 0x2400 || base == 0x2800 || base == 0x2C00,
            b1 == base ^ 0x400u16,
            b2 == base ^ 0x800u16,
            b3 == b1 ^ 0x800u16,
    ;
    assert((y + line) / 8 <= 63);
    assert(0 <= y1 - 0x3C0 * ty <= 0x3A0);
    assert((y1 - 0x3C0 * ty) % 0x20 == 0);
}

/// A background colour under a palette that holds only the 64 picture
/// colours is one of them.
pub proof fn lemma_gray_masked_color(m: PpuMapView, gray: bool, attr: int, pal: int)
    requires
        palette_ok(m),
        0 <= attr <= 12,
        0 <= pal <= 3,
    ensures
        bg_color(m, gray, attr, pal) < 64,
{
    let a = (0x3F00 + attr + pal) as u16;
    let v = ppu_map_read(m, a);
    assert(v < 64);
    let w = v as usize;
    crate::util::lemma_clear_low_nibble(w);
}

/// The hit is raised by a concatenation when either part raises it.
pub proof fn lemma_hits_zero_concat(a: Seq<Option<SpriteDot>>, b: Seq<Option<SpriteDot>>)
    ensures
        hits_zero(a + b) == (hits_zero(a) || hits_zero(b)),
{
    if hits_zero(a) {
        let i = choose|i: int| 0 <= i < a.len() && (#[trigger] a[i] matches Some(e) && e.2);
        assert((a + b)[i] == a[i]);
    }
    if hits_zero(b) {
        let i = choose|i: int| 0 <= i < b.len() && (#[trigger] b[i] matches Some(e) && e.2);
        assert((a + b)[a.len() + i] == b[i]);
    }
    if hits_zero(a + b) {
        let i = choose|i: int| 0 <= i < (a + b).len() && (#[trigger] (a + b)[i] matches Some(e) && e.2);
        if i < a.len() {
            assert(a[i] == (a + b)[i]);
        } else {
            assert(b[i - a.len()] == (a + b)[i]);
        }
    }
}

/// Replacing the sprite-zero hit flag twice keeps the second value.
pub proof fn lemma_zero_hit_twice(c: CPU, a: bool, b: bool)
    ensures
        with_sprite_zero_hit(with_sprite_zero_hit(c, a), b) == with_sprite_zero_hit(c, b),
        with_sprite_zero_hit(c, a).bus.cpu_bus.ppu_register.ppu_status.sprite_zero_hit == a,
        with_sprite_zero_hit(c, a).bus.ppu == c.bus.ppu,
        with_sprite_zero_hit(c, a).bus.cpu_bus.ppu_register.ppu_mask == c.bus.cpu_bus.ppu_register.ppu_mask,
        with_sprite_zero_hit(c, a).bus.cpu_bus.ppu_register.ppu_ctrl == c.bus.cpu_bus.ppu_register.ppu_ctrl,
{
}

/// The column, 0 to 31, of the tile at `nt` within its nametable.
pub open spec fn tile_column(nt: int) -> int {
    (nt - name_table_base(nt)) % 32
}

/// The row, 0 to 29, of the tile at `nt` within its nametable.
pub open spec fn tile_row(nt: int) -> int {
    (nt - name_table_base(nt)) / 32
}

/// The palette of a background tile in column `c` and row `r` of a
/// nametable comes from the attribute byte at `0x3C0 + (r / 4) * 8 + c / 4`
/// of that nametable, which covers a 4x4 block of tiles.  Each 2x2 quarter
/// of the block has a 2-bit field of the byte: bits 0-1 for the top left,
/// 2-3 for the top right, 4-5 for the bottom left and 6-7 for the bottom
/// right.  The palette offset is that field times 4.
pub proof fn lemma_attribute_palette(nt: int, p: u8)
    requires
        in_name_table(nt),
    ensures
        attr_cell(nt) == name_table_base(nt) + 0x3C0 + (tile_row(nt) / 4) * 8 + tile_column(nt) / 4,
        attr_quadrant(nt) == 2 * ((tile_row(nt) / 2) % 2) + (tile_column(nt) / 2) % 2,
        attr_palette(p as usize, attr_quadrant(nt) as usize) == 4 * (if (tile_row(nt) / 2) % 2
            == 0 {
            if (tile_column(nt) / 2) % 2 == 0 {
                p % 4
            } else {
                (p / 4) % 4
            }
        } else {
            if (tile_column(nt) / 2) % 2 == 0 {
                (p / 16) % 4
            } else {
                (p / 64) % 4
            }
        }),
{
    let base = name_table_base(nt);
    let rel = nt - base;
    assert(0 <= rel < 0x3C0);
    assert(nt % 32 == rel % 32);
    assert(rel / 0x80 == (rel / 32) / 4);
    assert(rel / 0x40 == (rel / 32) / 2);
    let w = p as usize;
    assert(((w & (3usize << 0usize)) >> 0usize) == w % 4 && ((w & (3usize << 2usize)) >> 2usize)
        == (w / 4) % 4 && ((w & (3usize << 4usize)) >> 4usize) == (w / 16) % 4 && ((w & (3usize
        << 6usize)) >> 6usize) == (w / 64) % 4) by (bit_vector)
        requires
            w < 256,
    ;
    let q = attr_quadrant(nt);
    assert(0 <= q < 4);
    assert(((q * 2) as usize) == 2 * q);
}

/// A write of `d` to PPUCTRL makes rendering start from nametable `d & 3`:
/// the base nametable becomes `0x2000 + 0x400 * (d & 3)`, whatever the
/// temporary VRAM address held before.
pub proof fn lemma_ctrl_write_selects_nametable(t: u16, d: u8)
    ensures
        base_nametable(crate::bus::cpu_map::t_after_ctrl(t, d)) == 0x2000 + 0x400 * (d % 4),
{
    let t2 = crate::bus::cpu_map::t_after_ctrl(t, d);
    assert(((t2 & 0x400) != 0) == (d % 2 == 1) && ((t2 & 0x800) != 0) == ((d / 2) % 2 == 1) && d
        % 4 == d % 2 + 2 * ((d / 2) % 2)) by (bit_vector)
        requires
            t2 == (t & 0b1111001111111111) | (((d as u16) & 0b11) << 10u16),
    ;
}

} // verus!
