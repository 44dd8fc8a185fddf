use vstd::prelude::*;

use crate::bus::cpu_map::{
    ppu_register_written, t_after_scroll_x, t_after_scroll_y, PpuCtrl, PpuMask, PpuRegister,
    PpuStatus,
};
use crate::bus::{Bus, BusView};
use crate::cpu::instruction::nmi_entered;
use crate::cpu::register::PFlags;
use crate::cpu::{with_flags, CpuState, Interrupt, CPU};
use crate::emulator::texture::{paint_dots, pixel_offset, row_fits, table_dots};
use crate::emulator::{
    line_background, big_sprite_dots, first_colors, hits_zero, lemma_zero_hit_twice, normal_sprite_dots, scroll_of,
    palette_ok, sprite_line_dots, sprites_drawable, tiles_below_last, with_sprite_zero_hit,
    Emulator,
};
use crate::ppu::mapper::PpuMapView;
use crate::ppu::oam::SpriteInfo;
use crate::ppu::{lemma_line_sprites_member, line_search_in_range, line_search_ok, line_sprites, PPU};

verus! {

/// What drawing the sprites of a line changes: the sprites picked for the
/// line, the sprite-zero hit flag, and the picture.
pub struct SpriteLayer {
    pub secondary: Seq<SpriteInfo>,
    pub zero_hit: bool,
    pub buffer: Seq<u8>,
}

/// The layer after the sprites of the secondary OAM were drawn with the
/// dots that `f` gives each sprite.
pub open spec fn sprites_drawn(
    l: SpriteLayer,
    f: spec_fn(SpriteInfo) -> Seq<Option<(u8, usize, bool)>>,
    w: int,
    y: u8,
    colors: Seq<[u8; 3]>,
) -> SpriteLayer {
    let dots = sprite_line_dots(l.secondary, f, w * 8);
    SpriteLayer {
        zero_hit: l.zero_hit || hits_zero(dots),
        buffer: paint_dots(l.buffer, w, y, table_dots(first_colors(dots), 256), colors),
        ..l
    }
}

/// The layer after the sprites on one side of the background were drawn
/// on line `line`, when the mask shows sprites: the sprites of the line are
/// picked and drawn; 8x16 sprites draw their upper tiles and, from line 8
/// on, the lower tiles of the sprites picked eight lines up.
pub open spec fn sprite_layer(
    l: SpriteLayer,
    primary: Seq<SpriteInfo>,
    m: PpuMapView,
    mask: PpuMask,
    ctrl: PpuCtrl,
    line: u16,
    w: int,
    colors: Seq<[u8; 3]>,
    behind: bool,
) -> SpriteLayer {
    let y = (line % 256) as u8;
    let gray = mask.gray_scale;
    if !mask.show_sprites {
        l
    } else if ctrl.sprite_size {
        let top = sprites_drawn(
            SpriteLayer { secondary: line_sprites(primary, y, behind), ..l },
            |sp: SpriteInfo| big_sprite_dots(sp, m, gray, line, false),
            w,
            y,
            colors,
        );
        if line >= 8 {
            sprites_drawn(
                SpriteLayer { secondary: line_sprites(primary, (y - 8) as u8, behind), ..top },
                |sp: SpriteInfo| big_sprite_dots(sp, m, gray, line, true),
                w,
                y,
                colors,
            )
        } else {
            top
        }
    } else {
        sprites_drawn(
            SpriteLayer { secondary: line_sprites(primary, y, behind), ..l },
            |sp: SpriteInfo| normal_sprite_dots(sp, m, gray, ctrl.sprite_ptn_table_addr, line),
            w,
            y,
            colors,
        )
    }
}

/// The state with PPUSTATUS replaced.
pub open spec fn with_status(s: CpuState, st: PpuStatus) -> CpuState {
    CpuState { bus: BusView { regs: PpuRegister { ppu_status: st, ..s.bus.regs }, ..s.bus }, ..s }
}

/// The processor `c1` differs from `c0` at most in the sprites picked for
/// a line and in the sprite-zero hit flag.
pub open spec fn sprites_changed(c1: CPU, c0: CPU) -> bool {
    c1 == with_sprite_zero_hit(
        CPU {
            bus: Bus { ppu: PPU { secondary_oam: c1.bus.ppu.secondary_oam, ..c0.bus.ppu }, ..c0.bus },
            ..c0
        },
        c1.bus.cpu_bus.ppu_register.ppu_status.sprite_zero_hit,
    )
}

/// Every sprite of the primary OAM uses one of the four sprite palettes.
pub open spec fn sprites_paletted(p: Seq<SpriteInfo>) -> bool {
    forall|sp: SpriteInfo| #[trigger] p.contains(sp) ==> sp.attr.palette < 4
}

/// The sprites picked for line `y` can be drawn on any line at or below it.
pub proof fn lemma_picked_drawable(p: Seq<SpriteInfo>, y: u8, behind: bool, line: u16)
    requires
        sprites_paletted(p),
        y <= line,
    ensures
        sprites_drawable(line_sprites(p, y, behind), line),
        tiles_below_last(p) ==> tiles_below_last(line_sprites(p, y, behind)),
{
    assert forall|sp: SpriteInfo| #[trigger]
        line_sprites(p, y, behind).contains(sp) implies sp.pos_y <= line && sp.attr.palette < 4
        && (tiles_below_last(p) ==> sp.tile_index.tile_number < 255) by {
        lemma_line_sprites_member(p, y, behind, sp);
    }
}

impl<
    const TILE_COUNTS_ON_WIDTH: u32,
    const WINDOW_HEIGHT: u32,
    const WINDOW_WIDTH: u32,
    const PPU_DRAW_LINE_CYCLE: u16,
    const VBLANK_LINE: u16,
    const TOTAL_LINE: u16,
    const VISIBLE_LINES: u16,
    const APU_UPDATE_CYCLE: u16,
> Emulator<
    TILE_COUNTS_ON_WIDTH,
    WINDOW_HEIGHT,
    WINDOW_WIDTH,
    PPU_DRAW_LINE_CYCLE,
    VBLANK_LINE,
    TOTAL_LINE,
    VISIBLE_LINES,
    APU_UPDATE_CYCLE,
> {
    /// The layer of the emulator as it stands.
    pub open spec fn layer(&self) -> SpriteLayer {
        SpriteLayer {
            secondary: self.cpu.bus.ppu.secondary_oam.sprite_infos@,
            zero_hit: self.cpu.bus.cpu_bus.ppu_register.ppu_status.sprite_zero_hit,
            buffer: self.texture_buffer.buffer@,
        }
    }

    /// Picks the sprites behind the background of the line being drawn.
    fn set_secondary_oam_behind_background_for_nomal(&mut self)
        requires
            line_search_in_range(old(self).cpu.bus.ppu.primary_oam.sprite_infos@, (old(self).drawing_line % 256) as u8, true),
        ensures
            final(self).layer() == (SpriteLayer {
                secondary: line_sprites(old(self).cpu.bus.ppu.primary_oam.sprite_infos@, (old(self).drawing_line % 256) as u8, true),
                ..old(self).layer()
            }),
            sprites_changed(final(self).cpu, old(self).cpu),
            final(self).texture_buffer.colors_of() == old(self).texture_buffer.colors_of(),
            final(self).drawing_line == old(self).drawing_line,
            final(self).ppu_cycle == old(self).ppu_cycle,
            final(self).apu_cycle == old(self).apu_cycle,
            final(self).pad_data == old(self).pad_data,
    {
        let behind_background = true;
        let line8 = (#[verifier::truncate] (self.drawing_line as u8));
        let ghost l16 = self.drawing_line;
        proof {
            crate::util::lemma_low_byte_u16(l16);
        }
        self.cpu.bus.ppu.set_secondary_oam(line8, behind_background);
        proof {
            lemma_zero_hit_twice(
                self.cpu,
                self.cpu.bus.cpu_bus.ppu_register.ppu_status.sprite_zero_hit,
                self.cpu.bus.cpu_bus.ppu_register.ppu_status.sprite_zero_hit,
            );
        }
    }

    /// Picks the sprites in front of the background of the line being drawn.
    fn set_secondary_oam_front_of_background_for_nomal(&mut self)
        requires
            line_search_in_range(old(self).cpu.bus.ppu.primary_oam.sprite_infos@, (old(self).drawing_line % 256) as u8, false),
        ensures
            final(self).layer() == (SpriteLayer {
                secondary: line_sprites(old(self).cpu.bus.ppu.primary_oam.sprite_infos@, (old(self).drawing_line % 256) as u8, false),
                ..old(self).layer()
            }),
            sprites_changed(final(self).cpu, old(self).cpu),
            final(self).texture_buffer.colors_of() == old(self).texture_buffer.colors_of(),
            final(self).drawing_line == old(self).drawing_line,
            final(self).ppu_cycle == old(self).ppu_cycle,
            final(self).apu_cycle == old(self).apu_cycle,
            final(self).pad_data == old(self).pad_data,
    {
        let behind_background = false;
        let line8 = (#[verifier::truncate] (self.drawing_line as u8));
        let ghost l16 = self.drawing_line;
        proof {
            crate::util::lemma_low_byte_u16(l16);
        }
        self.cpu.bus.ppu.set_secondary_oam(line8, behind_background);
        proof {
            lemma_zero_hit_twice(
                self.cpu,
                self.cpu.bus.cpu_bus.ppu_register.ppu_status.sprite_zero_hit,
                self.cpu.bus.cpu_bus.ppu_register.ppu_status.sprite_zero_hit,
            );
        }
    }

    /// Picks the sprites behind the background of eight lines up, for the lower tiles of 8x16 sprites.
    fn set_secondary_oam_behind_background_on_bottom(&mut self)
        requires
            old(self).drawing_line % 256 >= 8,
            line_search_in_range(old(self).cpu.bus.ppu.primary_oam.sprite_infos@, ((old(self).drawing_line % 256) - 8) as u8, true),
        ensures
            final(self).layer() == (SpriteLayer {
                secondary: line_sprites(old(self).cpu.bus.ppu.primary_oam.sprite_infos@, ((old(self).drawing_line % 256) - 8) as u8, true),
                ..old(self).layer()
            }),
            sprites_changed(final(self).cpu, old(self).cpu),
            final(self).texture_buffer.colors_of() == old(self).texture_buffer.colors_of(),
            final(self).drawing_line == old(self).drawing_line,
            final(self).ppu_cycle == old(self).ppu_cycle,
            final(self).apu_cycle == old(self).apu_cycle,
            final(self).pad_data == old(self).pad_data,
    {
        let behind_background = true;
        let line8 = (#[verifier::truncate] (self.drawing_line as u8));
        let ghost l16 = self.drawing_line;
        proof {
            crate::util::lemma_low_byte_u16(l16);
        }
        self.cpu.bus.ppu.set_secondary_oam(line8 - 8, behind_background);
        proof {
            lemma_zero_hit_twice(
                self.cpu,
                self.cpu.bus.cpu_bus.ppu_register.ppu_status.sprite_zero_hit,
                self.cpu.bus.cpu_bus.ppu_register.ppu_status.sprite_zero_hit,
            );
        }
    }

    /// Picks the sprites in front of the background of eight lines up, for the lower tiles of 8x16 sprites.
    fn set_secondary_oam_front_of_background_on_bottom(&mut self)
        requires
            old(self).drawing_line % 256 >= 8,
            line_search_in_range(old(self).cpu.bus.ppu.primary_oam.sprite_infos@, ((old(self).drawing_line % 256) - 8) as u8, false),
        ensures
            final(self).layer() == (SpriteLayer {
                secondary: line_sprites(old(self).cpu.bus.ppu.primary_oam.sprite_infos@, ((old(self).drawing_line % 256) - 8) as u8, false),
                ..old(self).layer()
            }),
            sprites_changed(final(self).cpu, old(self).cpu),
            final(self).texture_buffer.colors_of() == old(self).texture_buffer.colors_of(),
            final(self).drawing_line == old(self).drawing_line,
            final(self).ppu_cycle == old(self).ppu_cycle,
            final(self).apu_cycle == old(self).apu_cycle,
            final(self).pad_data == old(self).pad_data,
    {
        let behind_background = false;
        let line8 = (#[verifier::truncate] (self.drawing_line as u8));
        let ghost l16 = self.drawing_line;
        proof {
            crate::util::lemma_low_byte_u16(l16);
        }
        self.cpu.bus.ppu.set_secondary_oam(line8 - 8, behind_background);
        proof {
            lemma_zero_hit_twice(
                self.cpu,
                self.cpu.bus.cpu_bus.ppu_register.ppu_status.sprite_zero_hit,
                self.cpu.bus.cpu_bus.ppu_register.ppu_status.sprite_zero_hit,
            );
        }
    }

    /// Draws the upper tiles of the picked 8x16 sprites.
    fn insert_sprites_for_big_top(&mut self)
        requires
            sprites_drawable(old(self).cpu.bus.ppu.secondary_oam.sprite_infos@, old(self).drawing_line),
            tiles_below_last(old(self).cpu.bus.ppu.secondary_oam.sprite_infos@),
            TILE_COUNTS_ON_WIDTH as int * 8 <= u32::MAX,
            palette_ok(old(self).cpu.bus.ppu.map@),
            old(self).texture_buffer.colors_of().len() == 64,
            row_fits(TILE_COUNTS_ON_WIDTH as int, (old(self).drawing_line % 256) as u8),
            TILE_COUNTS_ON_WIDTH as int * 24 <= usize::MAX,
        ensures
            final(self).layer() == sprites_drawn(
                old(self).layer(),
                |sp: SpriteInfo|
                    big_sprite_dots(
                        sp,
                        old(self).cpu.bus.ppu.map@,
                        old(self).cpu.bus.cpu_bus.ppu_register.ppu_mask.gray_scale,
                        old(self).drawing_line,
                        false,
                    ),
                TILE_COUNTS_ON_WIDTH as int,
                (old(self).drawing_line % 256) as u8,
                old(self).texture_buffer.colors_of(),
            ),
            sprites_changed(final(self).cpu, old(self).cpu),
            final(self).texture_buffer.colors_of() == old(self).texture_buffer.colors_of(),
            final(self).drawing_line == old(self).drawing_line,
            final(self).ppu_cycle == old(self).ppu_cycle,
            final(self).apu_cycle == old(self).apu_cycle,
            final(self).pad_data == old(self).pad_data,
    {
        self.insert_sprites_for_big_size(false);
        proof {
            lemma_zero_hit_sprites_changed(
                old(self).cpu,
                self.cpu.bus.cpu_bus.ppu_register.ppu_status.sprite_zero_hit,
            );
        }
    }

    /// Draws the lower tiles of the picked 8x16 sprites.
    fn insert_sprites_for_big_bottom(&mut self)
        requires
            sprites_drawable(old(self).cpu.bus.ppu.secondary_oam.sprite_infos@, old(self).drawing_line),
            tiles_below_last(old(self).cpu.bus.ppu.secondary_oam.sprite_infos@),
            TILE_COUNTS_ON_WIDTH as int * 8 <= u32::MAX,
            palette_ok(old(self).cpu.bus.ppu.map@),
            old(self).texture_buffer.colors_of().len() == 64,
            row_fits(TILE_COUNTS_ON_WIDTH as int, (old(self).drawing_line % 256) as u8),
            TILE_COUNTS_ON_WIDTH as int * 24 <= usize::MAX,
        ensures
            final(self).layer() == sprites_drawn(
                old(self).layer(),
                |sp: SpriteInfo|
                    big_sprite_dots(
                        sp,
                        old(self).cpu.bus.ppu.map@,
                        old(self).cpu.bus.cpu_bus.ppu_register.ppu_mask.gray_scale,
                        old(self).drawing_line,
                        true,
                    ),
                TILE_COUNTS_ON_WIDTH as int,
                (old(self).drawing_line % 256) as u8,
                old(self).texture_buffer.colors_of(),
            ),
            sprites_changed(final(self).cpu, old(self).cpu),
            final(self).texture_buffer.colors_of() == old(self).texture_buffer.colors_of(),
            final(self).drawing_line == old(self).drawing_line,
            final(self).ppu_cycle == old(self).ppu_cycle,
            final(self).apu_cycle == old(self).apu_cycle,
            final(self).pad_data == old(self).pad_data,
    {
        self.insert_sprites_for_big_size(true);
        proof {
            lemma_zero_hit_sprites_changed(
                old(self).cpu,
                self.cpu.bus.cpu_bus.ppu_register.ppu_status.sprite_zero_hit,
            );
        }
    }

    /// Draws the 8x16 sprites behind the background: the upper tiles of the
    /// picked sprites, and from line 8 on the lower tiles of the sprites
    /// picked eight lines up.
    fn insert_sprite_behind_background_for_big_size(&mut self)
        requires
            old(self).drawing_line <= 0xFF,
            sprites_paletted(old(self).cpu.bus.ppu.primary_oam.sprite_infos@),
            tiles_below_last(old(self).cpu.bus.ppu.primary_oam.sprite_infos@),
            old(self).cpu.bus.ppu.secondary_oam.sprite_infos@ == line_sprites(
                old(self).cpu.bus.ppu.primary_oam.sprite_infos@,
                (old(self).drawing_line % 256) as u8,
                true,
            ),
            old(self).drawing_line >= 8 ==> line_search_in_range(
                old(self).cpu.bus.ppu.primary_oam.sprite_infos@,
                ((old(self).drawing_line % 256) - 8) as u8,
                true,
            ),
            TILE_COUNTS_ON_WIDTH as int * 8 <= u32::MAX,
            palette_ok(old(self).cpu.bus.ppu.map@),
            old(self).texture_buffer.colors_of().len() == 64,
            row_fits(TILE_COUNTS_ON_WIDTH as int, (old(self).drawing_line % 256) as u8),
            TILE_COUNTS_ON_WIDTH as int * 24 <= usize::MAX,
        ensures
            ({
                let gray = old(self).cpu.bus.cpu_bus.ppu_register.ppu_mask.gray_scale;
                let m = old(self).cpu.bus.ppu.map@;
                let line = old(self).drawing_line;
                let y = (line % 256) as u8;
                let w = TILE_COUNTS_ON_WIDTH as int;
                let colors = old(self).texture_buffer.colors_of();
                let top = sprites_drawn(
                    old(self).layer(),
                    |sp: SpriteInfo| big_sprite_dots(sp, m, gray, line, false),
                    w,
                    y,
                    colors,
                );
                final(self).layer() == if line >= 8 {
                    sprites_drawn(
                        SpriteLayer {
                            secondary: line_sprites(
                                old(self).cpu.bus.ppu.primary_oam.sprite_infos@,
                                (y - 8) as u8,
                                true,
                            ),
                            ..top
                        },
                        |sp: SpriteInfo| big_sprite_dots(sp, m, gray, line, true),
                        w,
                        y,
                        colors,
                    )
                } else {
                    top
                }
            }),
            sprites_changed(final(self).cpu, old(self).cpu),
            final(self).texture_buffer.colors_of() == old(self).texture_buffer.colors_of(),
            final(self).drawing_line == old(self).drawing_line,
            final(self).ppu_cycle == old(self).ppu_cycle,
            final(self).apu_cycle == old(self).apu_cycle,
            final(self).pad_data == old(self).pad_data,
    {
        let ghost p = self.cpu.bus.ppu.primary_oam.sprite_infos@;
        proof {
            lemma_picked_drawable(p, (self.drawing_line % 256) as u8, true, self.drawing_line);
        }
        let ghost c0 = self.cpu;
        self.insert_sprites_for_big_top();
        let ghost c1 = self.cpu;
        if self.enable_render_bottom() {
            proof {
                lemma_picked_drawable(p, ((self.drawing_line % 256) - 8) as u8, true, self.drawing_line);
            }
            self.set_secondary_oam_behind_background_on_bottom();
            let ghost c2 = self.cpu;
            self.insert_sprites_for_big_bottom();
            proof {
                lemma_sprites_changed_trans(c2, c1, c0);
                lemma_sprites_changed_trans(self.cpu, c2, c0);
            }
        }
    }

    /// Draws the 8x16 sprites in front of the background: the upper tiles of the
    /// picked sprites, and from line 8 on the lower tiles of the sprites
    /// picked eight lines up.
    fn insert_sprite_front_of_background_for_big_size(&mut self)
        requires
            old(self).drawing_line <= 0xFF,
            sprites_paletted(old(self).cpu.bus.ppu.primary_oam.sprite_infos@),
            tiles_below_last(old(self).cpu.bus.ppu.primary_oam.sprite_infos@),
            old(self).cpu.bus.ppu.secondary_oam.sprite_infos@ == line_sprites(
                old(self).cpu.bus.ppu.primary_oam.sprite_infos@,
                (old(self).drawing_line % 256) as u8,
                false,
            ),
            old(self).drawing_line >= 8 ==> line_search_in_range(
                old(self).cpu.bus.ppu.primary_oam.sprite_infos@,
                ((old(self).drawing_line % 256) - 8) as u8,
                false,
            ),
            TILE_COUNTS_ON_WIDTH as int * 8 <= u32::MAX,
            palette_ok(old(self).cpu.bus.ppu.map@),
            old(self).texture_buffer.colors_of().len() == 64,
            row_fits(TILE_COUNTS_ON_WIDTH as int, (old(self).drawing_line % 256) as u8),
            TILE_COUNTS_ON_WIDTH as int * 24 <= usize::MAX,
        ensures
            ({
                let gray = old(self).cpu.bus.cpu_bus.ppu_register.ppu_mask.gray_scale;
                let m = old(self).cpu.bus.ppu.map@;
                let line = old(self).drawing_line;
                let y = (line % 256) as u8;
                let w = TILE_COUNTS_ON_WIDTH as int;
                let colors = old(self).texture_buffer.colors_of();
                let top = sprites_drawn(
                    old(self).layer(),
                    |sp: SpriteInfo| big_sprite_dots(sp, m, gray, line, false),
                    w,
                    y,
                    colors,
                );
                final(self).layer() == if line >= 8 {
                    sprites_drawn(
                        SpriteLayer {
                            secondary: line_sprites(
                                old(self).cpu.bus.ppu.primary_oam.sprite_infos@,
                                (y - 8) as u8,
                                false,
                            ),
                            ..top
                        },
                        |sp: SpriteInfo| big_sprite_dots(sp, m, gray, line, true),
                        w,
                        y,
                        colors,
                    )
                } else {
                    top
                }
            }),
            sprites_changed(final(self).cpu, old(self).cpu),
            final(self).texture_buffer.colors_of() == old(self).texture_buffer.colors_of(),
            final(self).drawing_line == old(self).drawing_line,
            final(self).ppu_cycle == old(self).ppu_cycle,
            final(self).apu_cycle == old(self).apu_cycle,
            final(self).pad_data == old(self).pad_data,
    {
        let ghost p = self.cpu.bus.ppu.primary_oam.sprite_infos@;
        proof {
            lemma_picked_drawable(p, (self.drawing_line % 256) as u8, false, self.drawing_line);
        }
        let ghost c0 = self.cpu;
        self.insert_sprites_for_big_top();
        let ghost c1 = self.cpu;
        if self.enable_render_bottom() {
            proof {
                lemma_picked_drawable(p, ((self.drawing_line % 256) - 8) as u8, false, self.drawing_line);
            }
            self.set_secondary_oam_front_of_background_on_bottom();
            let ghost c2 = self.cpu;
            self.insert_sprites_for_big_bottom();
            proof {
                lemma_sprites_changed_trans(c2, c1, c0);
                lemma_sprites_changed_trans(self.cpu, c2, c0);
            }
        }
    }

    /// Draws the sprites behind the background on the line being drawn,
    /// when the mask shows sprites.
    fn insert_sprites_behinds_background(&mut self)
        requires
            old(self).drawing_line <= 0xFF,
            sprites_paletted(old(self).cpu.bus.ppu.primary_oam.sprite_infos@),
            old(self).cpu.bus.cpu_bus.ppu_register.ppu_ctrl.sprite_size ==> tiles_below_last(
                old(self).cpu.bus.ppu.primary_oam.sprite_infos@,
            ),
            line_search_in_range(
                old(self).cpu.bus.ppu.primary_oam.sprite_infos@,
                (old(self).drawing_line % 256) as u8,
                true,
            ),
            old(self).cpu.bus.cpu_bus.ppu_register.ppu_ctrl.sprite_size && old(self).drawing_line
                >= 8 ==> line_search_in_range(
                old(self).cpu.bus.ppu.primary_oam.sprite_infos@,
                ((old(self).drawing_line % 256) - 8) as u8,
                true,
            ),
            TILE_COUNTS_ON_WIDTH as int * 8 <= u32::MAX,
            palette_ok(old(self).cpu.bus.ppu.map@),
            old(self).texture_buffer.colors_of().len() == 64,
            row_fits(TILE_COUNTS_ON_WIDTH as int, (old(self).drawing_line % 256) as u8),
            TILE_COUNTS_ON_WIDTH as int * 24 <= usize::MAX,
        ensures
            final(self).layer() == sprite_layer(
                old(self).layer(),
                old(self).cpu.bus.ppu.primary_oam.sprite_infos@,
                old(self).cpu.bus.ppu.map@,
                old(self).cpu.bus.cpu_bus.ppu_register.ppu_mask,
                old(self).cpu.bus.cpu_bus.ppu_register.ppu_ctrl,
                old(self).drawing_line,
                TILE_COUNTS_ON_WIDTH as int,
                old(self).texture_buffer.colors_of(),
                true,
            ),
            sprites_changed(final(self).cpu, old(self).cpu),
            final(self).texture_buffer.colors_of() == old(self).texture_buffer.colors_of(),
            final(self).drawing_line == old(self).drawing_line,
            final(self).ppu_cycle == old(self).ppu_cycle,
            final(self).apu_cycle == old(self).apu_cycle,
            final(self).pad_data == old(self).pad_data,
    {
        let ghost c0 = self.cpu;
        if self.cpu.bus.cpu_bus.ppu_register.ppu_mask.show_sprites {
            self.set_secondary_oam_behind_background_for_nomal();
            let ghost c1 = self.cpu;
            if self.cpu.bus.cpu_bus.ppu_register.ppu_ctrl.for_big() {
                self.insert_sprite_behind_background_for_big_size();
            } else {
                proof {
                    lemma_picked_drawable(
                        c0.bus.ppu.primary_oam.sprite_infos@,
                        (self.drawing_line % 256) as u8,
                        true,
                        self.drawing_line,
                    );
                }
                self.insert_sprites_for_normal_size();
                proof {
                    lemma_zero_hit_sprites_changed(
                        c1,
                        self.cpu.bus.cpu_bus.ppu_register.ppu_status.sprite_zero_hit,
                    );
                }
            }
            proof {
                lemma_sprites_changed_trans(self.cpu, c1, c0);
            }
        } else {
            proof {
                lemma_zero_hit_twice(
                    c0,
                    c0.bus.cpu_bus.ppu_register.ppu_status.sprite_zero_hit,
                    c0.bus.cpu_bus.ppu_register.ppu_status.sprite_zero_hit,
                );
            }
        }
    }

    /// Draws the sprites in front of the background on the line being drawn,
    /// when the mask shows sprites.
    fn insert_sprites_front_of_background(&mut self)
        requires
            old(self).drawing_line <= 0xFF,
            sprites_paletted(old(self).cpu.bus.ppu.primary_oam.sprite_infos@),
            old(self).cpu.bus.cpu_bus.ppu_register.ppu_ctrl.sprite_size ==> tiles_below_last(
                old(self).cpu.bus.ppu.primary_oam.sprite_infos@,
            ),
            line_search_in_range(
                old(self).cpu.bus.ppu.primary_oam.sprite_infos@,
                (old(self).drawing_line % 256) as u8,
                false,
            ),
            old(self).cpu.bus.cpu_bus.ppu_register.ppu_ctrl.sprite_size && old(self).drawing_line
                >= 8 ==> line_search_in_range(
                old(self).cpu.bus.ppu.primary_oam.sprite_infos@,
                ((old(self).drawing_line % 256) - 8) as u8,
                false,
            ),
            TILE_COUNTS_ON_WIDTH as int * 8 <= u32::MAX,
            palette_ok(old(self).cpu.bus.ppu.map@),
            old(self).texture_buffer.colors_of().len() == 64,
            row_fits(TILE_COUNTS_ON_WIDTH as int, (old(self).drawing_line % 256) as u8),
            TILE_COUNTS_ON_WIDTH as int * 24 <= usize::MAX,
        ensures
            final(self).layer() == sprite_layer(
                old(self).layer(),
                old(self).cpu.bus.ppu.primary_oam.sprite_infos@,
                old(self).cpu.bus.ppu.map@,
                old(self).cpu.bus.cpu_bus.ppu_register.ppu_mask,
                old(self).cpu.bus.cpu_bus.ppu_register.ppu_ctrl,
                old(self).drawing_line,
                TILE_COUNTS_ON_WIDTH as int,
                old(self).texture_buffer.colors_of(),
                false,
            ),
            sprites_changed(final(self).cpu, old(self).cpu),
            final(self).texture_buffer.colors_of() == old(self).texture_buffer.colors_of(),
            final(self).drawing_line == old(self).drawing_line,
            final(self).ppu_cycle == old(self).ppu_cycle,
            final(self).apu_cycle == old(self).apu_cycle,
            final(self).pad_data == old(self).pad_data,
    {
        let ghost c0 = self.cpu;
        if self.cpu.bus.cpu_bus.ppu_register.ppu_mask.show_sprites {
            self.set_secondary_oam_front_of_background_for_nomal();
            let ghost c1 = self.cpu;
            if self.cpu.bus.cpu_bus.ppu_register.ppu_ctrl.for_big() {
                self.insert_sprite_front_of_background_for_big_size();
            } else {
                proof {
                    lemma_picked_drawable(
                        c0.bus.ppu.primary_oam.sprite_infos@,
                        (self.drawing_line % 256) as u8,
                        false,
                        self.drawing_line,
                    );
                }
                self.insert_sprites_for_normal_size();
                proof {
                    lemma_zero_hit_sprites_changed(
                        c1,
                        self.cpu.bus.cpu_bus.ppu_register.ppu_status.sprite_zero_hit,
                    );
                }
            }
            proof {
                lemma_sprites_changed_trans(self.cpu, c1, c0);
            }
        } else {
            proof {
                lemma_zero_hit_twice(
                    c0,
                    c0.bus.cpu_bus.ppu_register.ppu_status.sprite_zero_hit,
                    c0.bus.cpu_bus.ppu_register.ppu_status.sprite_zero_hit,
                );
            }
        }
    }

    /// The line being drawn can be drawn: it lies in the picture, every
    /// palette colour is a picture colour, the sprites use the sprite
    /// palettes (and, as 8x16 sprites, not the last tile number), and the
    /// sprite searches of the line, and of eight lines up for 8x16 sprites,
    /// stay within range.
    pub open spec fn line_drawable(&self) -> bool {
        let p = self.cpu.bus.ppu.primary_oam.sprite_infos@;
        let line = self.drawing_line;
        let y = (line % 256) as u8;
        let big = self.cpu.bus.cpu_bus.ppu_register.ppu_ctrl.sprite_size;
        &&& TILE_COUNTS_ON_WIDTH <= 32
        &&& line <= 0xFF
        &&& palette_ok(self.cpu.bus.ppu.map@)
        &&& self.texture_buffer.colors_of().len() == 64
        &&& row_fits(TILE_COUNTS_ON_WIDTH as int, y)
        &&& sprites_paletted(p)
        &&& big ==> tiles_below_last(p)
        &&& line_search_in_range(p, y, true)
        &&& line_search_in_range(p, y, false)
        &&& big && line >= 8 ==> line_search_in_range(p, (y - 8) as u8, true)
        &&& big && line >= 8 ==> line_search_in_range(p, (y - 8) as u8, false)
    }

    /// Whether the line being drawn can be drawn, see `line_drawable`.
    pub fn line_is_drawable(&self) -> (r: bool)
        ensures
            r == self.line_drawable(),
    {
        let line = self.drawing_line;
        if TILE_COUNTS_ON_WIDTH > 32 || line > 0xFF {
            return false;
        }
        let y = line as u8;
        assert(y == (line % 256) as u8);
        if !self.cpu.bus.ppu.map.palette_in_range() {
            return false;
        }
        assert(y as u64 * (TILE_COUNTS_ON_WIDTH as u64 * 24) <= 255 * 768) by (nonlinear_arith)
            requires
                y <= 255,
                TILE_COUNTS_ON_WIDTH <= 32,
        ;
        let row_start: u64 = y as u64 * (TILE_COUNTS_ON_WIDTH as u64 * 24);
        if row_start + 255 * 3 + 3 > 184320 {
            assert(pixel_offset(TILE_COUNTS_ON_WIDTH as int, 255u8, y) + 3 > 184320);
            return false;
        }
        assert forall|x: u8| #[trigger]
            pixel_offset(TILE_COUNTS_ON_WIDTH as int, x, y) + 3 <= 184320 by {}
        let p = &self.cpu.bus.ppu.primary_oam.sprite_infos;
        let big = self.cpu.bus.cpu_bus.ppu_register.ppu_ctrl.sprite_size;
        let mut i: usize = 0;
        while i < p.len()
            invariant
                i <= p.len(),
                p@ == self.cpu.bus.ppu.primary_oam.sprite_infos@,
                big == self.cpu.bus.cpu_bus.ppu_register.ppu_ctrl.sprite_size,
                forall|j: int| 0 <= j < i ==> (#[trigger] p@[j]).attr.palette < 4 && (big
                    ==> p@[j].tile_index.tile_number < 255),
            decreases p.len() - i,
        {
            if p[i].attr.palette >= 4 {
                assert(p@.contains(p@[i as int]));
                assert(!sprites_paletted(p@));
                return false;
            }
            if big && p[i].tile_index.tile_number == 255 {
                assert(p@.contains(p@[i as int]));
                assert(!tiles_below_last(p@));
                return false;
            }
            i += 1;
        }
        assert forall|sp: SpriteInfo| #[trigger] p@.contains(sp) implies sp.attr.palette < 4 && (big
            ==> sp.tile_index.tile_number < 255) by {
            let j = choose|j: int| 0 <= j < p@.len() && p@[j] == sp;
            assert(p@[j] == sp);
        }
        if !line_search_ok(p, y, true) || !line_search_ok(p, y, false) {
            return false;
        }
        if big && line >= 8 {
            if !line_search_ok(p, y - 8, true) || !line_search_ok(p, y - 8, false) {
                return false;
            }
        }
        true
    }

    /// `next` is this emulator with the line drawn: the sprites behind the
    /// background, then the background as the registers then scroll it,
    /// then the sprites in front.
    pub open spec fn line_drawn(&self, next: &Self) -> bool {
        let m = self.cpu.bus.ppu.map@;
        let regs = self.cpu.bus.cpu_bus.ppu_register;
        let p = self.cpu.bus.ppu.primary_oam.sprite_infos@;
        let line = self.drawing_line;
        let w = TILE_COUNTS_ON_WIDTH as int;
        let colors = self.texture_buffer.colors_of();
        let y = (line % 256) as u8;
        let l1 = sprite_layer(self.layer(), p, m, regs.ppu_mask, regs.ppu_ctrl, line, w, colors, true);
        let regs1 = PpuRegister {
            ppu_status: PpuStatus { sprite_zero_hit: l1.zero_hit, ..regs.ppu_status },
            ..regs
        };
        let l2 = SpriteLayer {
            buffer: paint_dots(l1.buffer, w, y, line_background(m, regs1, line, w), colors),
            ..l1
        };
        let l3 = sprite_layer(l2, p, m, regs.ppu_mask, regs.ppu_ctrl, line, w, colors, false);
        &&& next.layer() == l3
        &&& sprites_changed(next.cpu, self.cpu)
        &&& next.texture_buffer.colors_of() == colors
        &&& next.drawing_line == line
        &&& next.ppu_cycle == self.ppu_cycle
        &&& next.apu_cycle == self.apu_cycle
        &&& next.pad_data == self.pad_data
    }

    /// `next` is this emulator moved to the next line: after the last line
    /// the frame is done and line 0 follows; entering the vertical blank
    /// raises the flag and, if PPUCTRL asks, the non-maskable interrupt;
    /// line 0 clears the flag, the sprite-zero hit and the interrupt flag.
    pub open spec fn line_advanced(&self, next: &Self, frame: bool) -> bool {
        let nl = if self.drawing_line == TOTAL_LINE {
            0
        } else {
            (self.drawing_line + 1) as u16
        };
        let st = self.cpu@;
        let status = st.bus.regs.ppu_status;
        &&& frame == (self.drawing_line == TOTAL_LINE)
        &&& next.drawing_line == nl
        &&& next.ppu_cycle == self.ppu_cycle
        &&& next.apu_cycle == self.apu_cycle
        &&& next.pad_data == self.pad_data
        &&& next.texture_buffer == self.texture_buffer
        &&& next.cpu.ops() == self.cpu.ops()
        &&& next.cpu.wf()
        &&& next.cpu@ == if nl == VBLANK_LINE {
            let s1 = with_status(st, PpuStatus { in_vlank: true, ..status });
            if st.bus.regs.ppu_ctrl.gen_nmi {
                nmi_entered(s1)
            } else {
                s1
            }
        } else if nl == 0 {
            let s1 = with_status(st, PpuStatus { in_vlank: false, sprite_zero_hit: false, ..status });
            with_flags(s1, PFlags { interrupt: false, ..s1.regs.p })
        } else {
            st
        }
    }

    /// `e` is this emulator with its PPU clock at `cycle` and, if the line
    /// lies in the picture, the line drawn.
    pub open spec fn line_done(&self, cycle: u16, e: &Self) -> bool {
        let s = Self { ppu_cycle: cycle, ..*self };
        if self.drawing_line < VISIBLE_LINES {
            s.line_drawn(e)
        } else {
            *e == s
        }
    }

    /// Draws the line being drawn.
    fn draw_line_layers(&mut self)
        requires
            old(self).line_drawable(),
        ensures
            old(self).line_drawn(final(self)),
    {
        self.insert_sprites_behinds_background();
        self.insert_background_line();
        self.insert_sprites_front_of_background();
    }

    /// Moves to the next line, see `line_advanced`; returns whether the
    /// frame is done.
    #[verifier::rlimit(30)]
    fn advance_line(&mut self) -> (frame: bool)
        requires
            old(self).cpu.wf(),
            old(self).drawing_line != TOTAL_LINE ==> old(self).drawing_line + 1 <= u16::MAX,
        ensures
            old(self).line_advanced(final(self), frame),
    {
        let mut frame = false;
        if self.drawing_line == TOTAL_LINE {
            frame = true;
            self.drawing_line = 0;
        } else {
            self.drawing_line += 1;
        }
        let ghost st = old(self).cpu@;
        let ghost status = st.bus.regs.ppu_status;
        let ghost map0 = self.cpu.bus.cpu_bus;
        if self.is_just_in_vblank_line() {
            self.cpu.bus.cpu_bus.ppu_register.ppu_status.in_vlank = true;
            proof {
                crate::bus::cpu_map::lemma_cells_ignore_registers(map0, self.cpu.bus.cpu_bus);
            }
            assert(self.cpu@ == with_status(st, PpuStatus { in_vlank: true, ..status }));
            if self.cpu.bus.cpu_bus.ppu_register.ppu_ctrl.gen_nmi {
                self.cpu.interrupt(Interrupt::Nmi);
            }
        } else if self.drawing_line == 0 {
            self.cpu.bus.cpu_bus.ppu_register.ppu_status.in_vlank = false;
            self.cpu.bus.cpu_bus.ppu_register.ppu_status.false_sprite_zero_hit();
            proof {
                crate::bus::cpu_map::lemma_cells_ignore_registers(map0, self.cpu.bus.cpu_bus);
            }
            assert(self.cpu@ == with_status(
                st,
                PpuStatus { in_vlank: false, sprite_zero_hit: false, ..status },
            ));
            self.cpu.set_interrupt(false);
        } else {
            assert(self.cpu@ == st);
        }
        frame
    }

    /// Adds the cycles of the last instruction to the PPU clock; once a
    /// line's worth has gathered, draws the line if it lies in the picture
    /// and moves to the next line.  Returns whether a frame is done and
    /// the picture can be shown.
    pub fn ppu_update(&mut self) -> (frame: bool)
        requires
            old(self).ppu_cycle + old(self).cpu.cycle * 3 <= u16::MAX,
            old(self).cpu.wf(),
            old(self).ppu_cycle + old(self).cpu.cycle * 3 >= PPU_DRAW_LINE_CYCLE ==> {
                &&& old(self).drawing_line < VISIBLE_LINES ==> old(self).line_drawable()
                &&& old(self).drawing_line != TOTAL_LINE ==> old(self).drawing_line + 1
                    <= u16::MAX
            },
        ensures
            ({
                let c = old(self).ppu_cycle + old(self).cpu.cycle * 3;
                &&& c < PPU_DRAW_LINE_CYCLE ==> !frame && *final(self) == (Self {
                    ppu_cycle: c as u16,
                    ..*old(self)
                })
                &&& c >= PPU_DRAW_LINE_CYCLE ==> exists|e: Self|
                    #[trigger] old(self).line_done((c - PPU_DRAW_LINE_CYCLE) as u16, &e)
                        && e.line_advanced(final(self), frame)
            }),
    {
        self.inc_ppu_cycle();
        let mut frame = false;
        if self.ppu_cycle >= PPU_DRAW_LINE_CYCLE {
            self.ppu_cycle -= PPU_DRAW_LINE_CYCLE;
            let ghost s = *self;
            if self.drawing_line < VISIBLE_LINES {
                self.draw_line_layers();
            }
            let ghost e = *self;
            proof {
                assert(s == (Self { ppu_cycle: self.ppu_cycle, ..*old(self) }));
                assert(old(self).line_done(self.ppu_cycle, &e));
            }
            frame = self.advance_line();
        }
        frame
    }
}

/// Replacing the sprite-zero hit flag changes no more than drawing sprites.
pub proof fn lemma_zero_hit_sprites_changed(c: CPU, h: bool)
    ensures
        sprites_changed(with_sprite_zero_hit(c, h), c),
{
}

/// Two steps that change at most the picked sprites and the hit flag
/// together change at most these.
pub proof fn lemma_sprites_changed_trans(c2: CPU, c1: CPU, c0: CPU)
    requires
        sprites_changed(c2, c1),
        sprites_changed(c1, c0),
    ensures
        sprites_changed(c2, c0),
{
}

/// Two writes to PPUSCROLL with the write latch clear, X then Y, set the
/// scroll position the lines are drawn with: X itself once a sprite-zero
/// hit occurred (else with its fine bits cleared), and Y itself; the latch
/// is clear again.
pub proof fn lemma_scroll_writes(r: PpuRegister, x: u8, y: u8, zero_hit: bool)
    requires
        !r.internal_registers.latch_flag,
    ensures
        ({
            let r2 = ppu_register_written(ppu_register_written(r, 0x2005, x), 0x2005, y);
            &&& scroll_of(r2.internal_registers.temporary_vram, r2.internal_registers.x_scroll, zero_hit)
                == (if zero_hit { x as u16 } else { (x & 0xF8) as u16 }, y as u16)
            &&& !r2.internal_registers.latch_flag
        }),
{
    let t = r.internal_registers.temporary_vram;
    let t1 = t_after_scroll_x(t, x);
    let t2 = t_after_scroll_y(t1, y);
    let fine = x & 0b111;
    assert(((t2 & 0b00011111) << 3u16) | fine as u16 == x as u16 && ((t2 & 0b00011111) << 3u16)
        | 0u8 as u16 == (x & 0xF8) as u16 && ((((t2 & 0b0000001100000000) >> 8u16) << 6u16) | (((t2
        & 0b011100000) >> 5u16) << 3u16) | ((t2 & 0b0111000000000000) >> 12u16)) == y as u16)
        by (bit_vector)
        requires
            t1 == (t & 0b1111111111100000) | (((x as u16) & 0b11111000) >> 3u16),
            t2 == (t1 & 0b1000110000011111) | (((((y as u16) & 0b11000000) >> 6u16) << 8u16) | ((((
            y as u16) & 0b00111000) >> 3u16) << 5u16) | (((y as u16) & 0b00000111) << 12u16)),
            fine == x & 0b111,
    ;
}

} // verus!
