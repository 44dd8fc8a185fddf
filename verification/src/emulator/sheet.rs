use vstd::prelude::*;

use crate::bus::{Bus, Mapper};
use crate::cpu::CPU;
use crate::emulator::texture::{painted, pixel_offset, row_fits};
use crate::emulator::{pixel_index, Emulator};
use crate::ppu::mapper::{ppu_map_read, ppu_map_written, PpuMapView};
use crate::ppu::PPU;
use vstd::arithmetic::div_mod::lemma_fundamental_div_mod_converse;

verus! {

/// The PPU map after the first `n` bytes of `chars` were written from
/// address 0 on.
pub open spec fn chars_written(v: PpuMapView, chars: Seq<u8>, n: int) -> PpuMapView
    decreases n,
{
    if n <= 0 {
        v
    } else {
        ppu_map_written(chars_written(v, chars, n - 1), (n - 1) as u16, chars[n - 1])
    }
}

/// The buffer after the pixels `dots`, each at (x, y) with a colour index,
/// were painted in order.
pub open spec fn paint_pixels(
    b: Seq<u8>,
    width: int,
    dots: Seq<(u8, u8, usize)>,
    colors: Seq<[u8; 3]>,
) -> Seq<u8>
    decreases dots.len(),
{
    if dots.len() == 0 {
        b
    } else {
        let d = dots.last();
        painted(
            paint_pixels(b, width, dots.drop_last(), colors),
            pixel_offset(width, d.0, d.1),
            colors[d.2 as int],
        )
    }
}

/// Pixel `k` of the sprite sheet: tile `k / 64`, row `k % 64 / 8`, dot
/// `k % 8`; tiles are laid out `w` to a row, and the dot's colour is its
/// 2-bit index in the pattern table.
#[verifier::opaque]
pub open spec fn sheet_dot(m: PpuMapView, w: int, k: int) -> (u8, u8, usize) {
    let n = k / 64;
    let i = (k % 64) / 8;
    let j = k % 8;
    let base = ((n * 0x10) % 0x10000) + i;
    let row = ppu_map_read(m, base as u16);
    let high = ppu_map_read(m, (base + 8) as u16);
    (
        ((j + (n % w) * 8) % 256) as u8,
        ((i + (n / w) * 8) % 256) as u8,
        pixel_index(row, high, (7 - j) as u32) as usize,
    )
}

/// The pixels of the first `count` pixels of the sprite sheet.
pub open spec fn sheet_dots(m: PpuMapView, w: int, count: int) -> Seq<(u8, u8, usize)> {
    Seq::new(count as nat, |k: int| sheet_dot(m, w, k))
}

/// Dot `j` of row `i` of tile `n` is pixel `n * 64 + i * 8 + j` of the sheet.
proof fn lemma_sheet_dot(
    m: PpuMapView,
    w: int,
    n: int,
    i: int,
    j: int,
    row: u8,
    high: u8,
    x: u8,
    y: u8,
    idx: usize,
)
    requires
        w > 0,
        0 <= n < 4096,
        0 <= i < 8,
        0 <= j < 8,
        row == ppu_map_read(m, (n * 0x10 + i) as u16),
        high == ppu_map_read(m, (n * 0x10 + i + 8) as u16),
        x == (j + (n % w) * 8) % 256,
        y == (i + (n / w) * 8) % 256,
        idx == pixel_index(row, high, (7 - j) as u32),
    ensures
        sheet_dot(m, w, n * 64 + i * 8 + j) == (x, y, idx),
{
    reveal(sheet_dot);
    let k = n * 64 + i * 8 + j;
    lemma_fundamental_div_mod_converse(k, 64, n, i * 8 + j);
    lemma_fundamental_div_mod_converse(i * 8 + j, 8, i, j);
    assert((n * 0x10) % 0x10000 == n * 0x10);
}

/// A sheet of at most 30 rows of tiles, at most 32 tiles wide, fits the
/// picture: every one of its pixels lies in the buffer.
pub proof fn lemma_sheet_fits(m: PpuMapView, w: int, sprites: int)
    requires
        0 < w <= 32,
        0 <= sprites <= 30 * w,
    ensures
        forall|k: int|
            0 <= k < sprites * 64 ==> #[trigger] pixel_offset(
                w,
                sheet_dot(m, w, k).0,
                sheet_dot(m, w, k).1,
            ) + 3 <= 184320,
{
    assert forall|k: int| 0 <= k < sprites * 64 implies #[trigger] pixel_offset(
        w,
        sheet_dot(m, w, k).0,
        sheet_dot(m, w, k).1,
    ) + 3 <= 184320 by {
        reveal(sheet_dot);
        let n = k / 64;
        let i = (k % 64) / 8;
        let j = k % 8;
        assert(0 <= n < sprites && 0 <= i < 8 && 0 <= j < 8) by (nonlinear_arith)
            requires
                0 <= k < sprites * 64,
                n == k / 64,
                i == (k % 64) / 8,
                j == k % 8,
        ;
        let x = j + (n % w) * 8;
        let y = i + (n / w) * 8;
        assert(0 <= x <= 8 * w - 1 && 0 <= y <= 239) by (nonlinear_arith)
            requires
                0 < w <= 32,
                0 <= n < sprites,
                sprites <= 30 * w,
                0 <= i < 8,
                0 <= j < 8,
                x == j + (n % w) * 8,
                y == i + (n / w) * 8,
        ;
        assert(y * (w * 24) + x * 3 + 3 <= 184320) by (nonlinear_arith)
            requires
                0 < w <= 32,
                0 <= x <= 8 * w - 1,
                0 <= y <= 239,
        ;
    }
}

impl<
    const TILE_COUNTS_ON_WIDTH: u32,
    const WINDOW_HEIGHT: u32,
    const WINDOW_WIDTH: u32,
    const PPU_DRAW_LINE_CYCLE: u16,
    const VBLANK_LINE: u16,
    const TOTAL_LINE: u16,
    const VISIBLE_LINES: u16,
    const APU_UPDATE_CYCLE: u16,
> Emulator<
    TILE_COUNTS_ON_WIDTH,
    WINDOW_HEIGHT,
    WINDOW_WIDTH,
    PPU_DRAW_LINE_CYCLE,
    VBLANK_LINE,
    TOTAL_LINE,
    VISIBLE_LINES,
    APU_UPDATE_CYCLE,
> {
    /// Writes the character ROM into the PPU map from address 0 on, at most
    /// 0x2001 bytes.
    pub fn set_sprites(&mut self, chars: &Vec<u8>)
        ensures
            ({
                let n = if chars.len() > 0x2001 {
                    0x2001
                } else {
                    chars.len() as int
                };
                final(self).cpu.bus.ppu.map@ == chars_written(old(self).cpu.bus.ppu.map@, chars@, n)
            }),
            final(self).cpu == (CPU {
                bus: Bus {
                    ppu: PPU { map: final(self).cpu.bus.ppu.map, ..old(self).cpu.bus.ppu },
                    ..old(self).cpu.bus
                },
                ..old(self).cpu
            }),
            final(self).texture_buffer == old(self).texture_buffer,
            final(self).drawing_line == old(self).drawing_line,
            final(self).ppu_cycle == old(self).ppu_cycle,
            final(self).apu_cycle == old(self).apu_cycle,
            final(self).pad_data == old(self).pad_data,
    {
        let ghost v0 = self.cpu.bus.ppu.map@;
        let mut i: usize = 0;
        while i < chars.len()
            invariant
                i <= chars.len(),
                i <= 0x2000,
                v0 == old(self).cpu.bus.ppu.map@,
                self.cpu.bus.ppu.map@ == chars_written(v0, chars@, i as int),
                self.cpu == (CPU {
                    bus: Bus {
                        ppu: PPU { map: self.cpu.bus.ppu.map, ..old(self).cpu.bus.ppu },
                        ..old(self).cpu.bus
                    },
                    ..old(self).cpu
                }),
                self.texture_buffer == old(self).texture_buffer,
                self.drawing_line == old(self).drawing_line,
                self.ppu_cycle == old(self).ppu_cycle,
                self.apu_cycle == old(self).apu_cycle,
                self.pad_data == old(self).pad_data,
            decreases chars.len() - i,
        {
            let chr = chars[i];
            self.cpu.bus.ppu.map.set(i as u16, chr);
            assert(self.cpu.bus.ppu.map@ == chars_written(v0, chars@, i as int + 1));
            if i == 0x2000 {
                return;
            }
            i += 1;
        }
    }

    /// Paints the first `sprites_num` tiles of the pattern tables as a sheet,
    /// `TILE_COUNTS_ON_WIDTH` tiles to a row, each dot in the colour of its
    /// 2-bit index.
    #[verifier::spinoff_prover]
    #[verifier::rlimit(50)]
    pub fn render_all_sprites(&mut self, sprites_num: u32)
        requires
            TILE_COUNTS_ON_WIDTH > 0,
            sprites_num <= 1024,
            TILE_COUNTS_ON_WIDTH as int * 24 <= usize::MAX,
            old(self).texture_buffer.colors_of().len() == 64,
            forall|k: int|
                0 <= k < sprites_num as int * 64 ==> #[trigger] pixel_offset(
                    TILE_COUNTS_ON_WIDTH as int,
                    sheet_dot(old(self).cpu.bus.ppu.map@, TILE_COUNTS_ON_WIDTH as int, k).0,
                    sheet_dot(old(self).cpu.bus.ppu.map@, TILE_COUNTS_ON_WIDTH as int, k).1,
                ) + 3 <= 184320,
        ensures
            final(self).texture_buffer.buffer@ == paint_pixels(
                old(self).texture_buffer.buffer@,
                TILE_COUNTS_ON_WIDTH as int,
                sheet_dots(
                    old(self).cpu.bus.ppu.map@,
                    TILE_COUNTS_ON_WIDTH as int,
                    sprites_num as int * 64,
                ),
                old(self).texture_buffer.colors_of(),
            ),
            final(self).texture_buffer.colors_of() == old(self).texture_buffer.colors_of(),
            final(self).cpu == old(self).cpu,
            final(self).drawing_line == old(self).drawing_line,
            final(self).ppu_cycle == old(self).ppu_cycle,
            final(self).apu_cycle == old(self).apu_cycle,
            final(self).pad_data == old(self).pad_data,
    {
        let ghost m = self.cpu.bus.ppu.map@;
        let ghost w = TILE_COUNTS_ON_WIDTH as int;
        let ghost b0 = self.texture_buffer.buffer@;
        let ghost colors = self.texture_buffer.colors_of();
        let ghost all = sheet_dots(m, w, sprites_num as int * 64);
        for n in 0..sprites_num
            invariant
                TILE_COUNTS_ON_WIDTH > 0,
                sprites_num <= 1024,
                TILE_COUNTS_ON_WIDTH as int * 24 <= usize::MAX,
                w == TILE_COUNTS_ON_WIDTH as int,
                m == self.cpu.bus.ppu.map@,
                colors == self.texture_buffer.colors_of(),
                colors.len() == 64,
                all == sheet_dots(m, w, sprites_num as int * 64),
                forall|k: int|
                    0 <= k < sprites_num as int * 64 ==> #[trigger] pixel_offset(
                        w,
                        sheet_dot(m, w, k).0,
                        sheet_dot(m, w, k).1,
                    ) + 3 <= 184320,
                self.texture_buffer.buffer@ == paint_pixels(b0, w, all.take(n * 64), colors),
                self.cpu == old(self).cpu,
                self.drawing_line == old(self).drawing_line,
                self.ppu_cycle == old(self).ppu_cycle,
                self.apu_cycle == old(self).apu_cycle,
                self.pad_data == old(self).pad_data,
        {
            for i in 0..8u16
                invariant
                    n < sprites_num,
                    TILE_COUNTS_ON_WIDTH > 0,
                    sprites_num <= 1024,
                    TILE_COUNTS_ON_WIDTH as int * 24 <= usize::MAX,
                    w == TILE_COUNTS_ON_WIDTH as int,
                    m == self.cpu.bus.ppu.map@,
                    colors == self.texture_buffer.colors_of(),
                    colors.len() == 64,
                    all == sheet_dots(m, w, sprites_num as int * 64),
                    forall|k: int|
                        0 <= k < sprites_num as int * 64 ==> #[trigger] pixel_offset(
                            w,
                            sheet_dot(m, w, k).0,
                            sheet_dot(m, w, k).1,
                        ) + 3 <= 184320,
                    self.texture_buffer.buffer@ == paint_pixels(
                        b0,
                        w,
                        all.take(n * 64 + i * 8),
                        colors,
                    ),
                    self.cpu == old(self).cpu,
                    self.drawing_line == old(self).drawing_line,
                    self.ppu_cycle == old(self).ppu_cycle,
                    self.apu_cycle == old(self).apu_cycle,
                    self.pad_data == old(self).pad_data,
            {
                let a = (n * 0x10) as u16;
                let sprite_row_line = self.cpu.bus.ppu.map.addr(a + i);
                let sprite_high_line = self.cpu.bus.ppu.map.addr(a + i + 0x8);
                for j in 0..8u32
                    invariant
                        n < sprites_num,
                        i < 8,
                        a == n * 0x10,
                        TILE_COUNTS_ON_WIDTH > 0,
                        sprites_num <= 1024,
                        TILE_COUNTS_ON_WIDTH as int * 24 <= usize::MAX,
                        w == TILE_COUNTS_ON_WIDTH as int,
                        m == self.cpu.bus.ppu.map@,
                        sprite_row_line == ppu_map_read(m, (a + i) as u16),
                        sprite_high_line == ppu_map_read(m, (a + i + 8) as u16),
                        colors == self.texture_buffer.colors_of(),
                        colors.len() == 64,
                        all == sheet_dots(m, w, sprites_num as int * 64),
                        forall|k: int|
                            0 <= k < sprites_num as int * 64 ==> #[trigger] pixel_offset(
                                w,
                                sheet_dot(m, w, k).0,
                                sheet_dot(m, w, k).1,
                            ) + 3 <= 184320,
                        self.texture_buffer.buffer@ == paint_pixels(
                            b0,
                            w,
                            all.take(n * 64 + i * 8 + j),
                            colors,
                        ),
                        self.cpu == old(self).cpu,
                        self.drawing_line == old(self).drawing_line,
                        self.ppu_cycle == old(self).ppu_cycle,
                        self.apu_cycle == old(self).apu_cycle,
                        self.pad_data == old(self).pad_data,
                {
                    let (idx, x, y) = {
                        let idx = {
                            let r: u16 = if (sprite_row_line & (0b1 << (7 - j))) != 0 {
                                1
                            } else {
                                0
                            };
                            let h: u16 = if (sprite_high_line & (0b1 << (7 - j))) != 0 {
                                1
                            } else {
                                0
                            };
                            let v = h << 1 | r;
                            proof {
                                crate::util::lemma_two_bits(h, r);
                            }
                            v as usize
                        };
                        assert(n % TILE_COUNTS_ON_WIDTH <= n && n / TILE_COUNTS_ON_WIDTH <= n)
                            by (nonlinear_arith)
                            requires
                                TILE_COUNTS_ON_WIDTH > 0,
                        ;
                        let x = j as u32 + (n % TILE_COUNTS_ON_WIDTH) * 8;
                        let y = i as u32 + (n / TILE_COUNTS_ON_WIDTH) * 8;
                        (idx, x, y)
                    };
                    let x8 = (#[verifier::truncate] (x as u8));
                    let y8 = (#[verifier::truncate] (y as u8));
                    proof {
                        crate::util::lemma_low_byte_u32(x);
                        crate::util::lemma_low_byte_u32(y);
                    }
                    proof {
                        let k = n * 64 + i * 8 + j;
                        lemma_sheet_dot(m, w, n as int, i as int, j as int, sprite_row_line,
                            sprite_high_line, x8, y8, idx);
                        assert(all.take(k + 1).drop_last() =~= all.take(k));
                        assert(pixel_offset(w, sheet_dot(m, w, k).0, sheet_dot(m, w, k).1) + 3
                            <= 184320);
                    }
                    self.texture_buffer.insert_color(x8, y8, idx);
                }
            }
        }
        assert(all.take(sprites_num as int * 64) =~= all);
    }
}

} // verus!
