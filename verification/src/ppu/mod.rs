pub mod mapper;
pub mod oam;
pub mod register;

use vstd::prelude::*;

use crate::nes::{Nes, mirroring_of};
use mapper::PpuMap;
use oam::{PrimaryOAM, SecondaryOAM, SpriteInfo, SpriteInfos, covers_line};

verus! {

/// The sprite is drawn on line `y` on the given side of the background.
pub open spec fn draws_on(s: SpriteInfo, y: u8, behind_background: bool) -> bool {
    covers_line(s, y) && s.attr.priority == behind_background
}

/// The sprites of `s` drawn on line `y` on the given side of the
/// background, in OAM order, at most eight.
pub open spec fn line_sprites(s: Seq<SpriteInfo>, y: u8, behind_background: bool) -> Seq<
    SpriteInfo,
> {
    let f = s.filter(|x: SpriteInfo| draws_on(x, y, behind_background));
    if f.len() > 8 {
        f.take(8)
    } else {
        f
    }
}

/// The search for the sprites of line `y` never looks at a sprite whose
/// Y position overflows when its height is added: every such sprite comes
/// after eight sprites of the line.
pub open spec fn line_search_in_range(s: Seq<SpriteInfo>, y: u8, behind_background: bool) -> bool {
    forall|i: int|
        0 <= i < s.len() && #[trigger] s[i].pos_y + 7 > u8::MAX ==> s.take(i).filter(
            |x: SpriteInfo| draws_on(x, y, behind_background),
        ).len() >= 8
}

/// Whether the search for the sprites of line `y` on the given side of
/// the background stays within range, see `line_search_in_range`.
pub fn line_search_ok(s: &Vec<SpriteInfo>, y: u8, behind_background: bool) -> (r: bool)
    ensures
        r == line_search_in_range(s@, y, behind_background),
{
    let ghost p = |x: SpriteInfo| draws_on(x, y, behind_background);
    let mut count: usize = 0;
    let mut i: usize = 0;
    proof {
        assert(s@.take(0) =~= Seq::<SpriteInfo>::empty());
        reveal(Seq::filter);
    }
    while i < s.len()
        invariant
            i <= s.len(),
            p == (|x: SpriteInfo| draws_on(x, y, behind_background)),
            count == s@.take(i as int).filter(p).len(),
            count <= i,
            forall|j: int|
                0 <= j < i && #[trigger] s@[j].pos_y + 7 > u8::MAX ==> s@.take(j).filter(p).len()
                    >= 8,
        decreases s.len() - i,
    {
        let sp = s[i];
        if sp.pos_y as u16 + 7 > 255 && count < 8 {
            assert(s@[i as int].pos_y + 7 > u8::MAX);
            return false;
        }
        proof {
            assert(s@.take(i + 1) =~= s@.take(i as int).push(s@[i as int]));
            s@.take(i as int).lemma_filter_push(s@[i as int], p);
        }
        let d = sp.pos_y <= y && sp.pos_y as u16 + 7 >= y as u16 && sp.attr.priority
            == behind_background;
        if d {
            count += 1;
        }
        i += 1;
    }
    true
}

/// The picture processor: its memory and its sprite memories.
#[derive(Debug, Clone)]
pub struct PPU {
    pub map: PpuMap,
    pub primary_oam: PrimaryOAM,
    pub secondary_oam: SecondaryOAM,
    pub oam_buf: Vec<u8>,
}

impl PPU {
    pub fn new(nes: &Nes) -> (r: Self)
        ensures
            r.map@.type_of_mirroring == mirroring_of(nes.header.flags6),
            forall|i: int| 0 <= i < 0x4000 ==> r.map@.mem[i] == 0,
            r.primary_oam.sprite_infos@ == Seq::new(64, |i: int| SpriteInfo::blank()),
            r.secondary_oam.sprite_infos@ == Seq::new(8, |i: int| SpriteInfo::blank()),
            r.oam_buf@ == Seq::<u8>::empty(),
    {
        Self {
            map: PpuMap::new(nes),
            primary_oam: PrimaryOAM::default(),
            secondary_oam: SecondaryOAM::default(),
            oam_buf: vec![],
        }
    }

    /// Picks the sprites of line `y` on the given side of the background.
    pub fn set_secondary_oam(&mut self, y: u8, behind_background: bool)
        requires
            line_search_in_range(old(self).primary_oam.sprite_infos@, y, behind_background),
        ensures
            final(self).secondary_oam.sprite_infos@ == line_sprites(
                old(self).primary_oam.sprite_infos@,
                y,
                behind_background,
            ),
            final(self).primary_oam == old(self).primary_oam,
            final(self).map == old(self).map,
            final(self).oam_buf == old(self).oam_buf,
    {
        let ghost s = self.primary_oam.sprite_infos@;
        let ghost p = |x: SpriteInfo| draws_on(x, y, behind_background);
        let mut sprite_infos: SpriteInfos = vec![];
        let n = self.primary_oam.sprite_infos.len();
        let mut i: usize = 0;
        proof {
            assert(s.take(0) =~= Seq::<SpriteInfo>::empty());
            reveal(Seq::filter);
        }
        while i < n
            invariant
                n == s.len(),
                s == self.primary_oam.sprite_infos@,
                s == old(self).primary_oam.sprite_infos@,
                *self == *old(self),
                p == (|x: SpriteInfo| draws_on(x, y, behind_background)),
                line_search_in_range(s, y, behind_background),
                i <= n,
                sprite_infos@ == s.take(i as int).filter(p),
                sprite_infos@.len() < 8,
            decreases n - i,
        {
            let sprite_info = self.primary_oam.sprite_infos[i];
            proof {
                if sprite_info.pos_y + 7 > u8::MAX {
                    assert(s[i as int].pos_y + 7 > u8::MAX);
                }
                assert(s.take(i + 1) =~= s.take(i as int).push(s[i as int]));
                s.take(i as int).lemma_filter_push(s[i as int], p);
            }
            let match_condition = if behind_background {
                sprite_info.in_drawing_range(y) && sprite_info.behind_of_background()
            } else {
                sprite_info.in_drawing_range(y) && sprite_info.front_of_background()
            };

            if match_condition {
                sprite_infos.push(sprite_info);
                if sprite_infos.len() >= 8 {
                    proof {
                        s.take(i + 1).lemma_filter_monotone(s, p);
                        s.lemma_filter_take_len(p, i + 1);
                        assert(line_sprites(s, y, behind_background) =~= sprite_infos@);
                    }
                    self.secondary_oam.sprite_infos = sprite_infos;
                    return;
                }
            }
            i += 1;
        }
        proof {
            assert(s.take(n as int) =~= s);
        }
        self.secondary_oam.sprite_infos = sprite_infos;
    }
}

/// A sprite picked for a line is one of the sprites, covers the line and
/// lies on the asked side of the background.
pub proof fn lemma_line_sprites_member(s: Seq<SpriteInfo>, y: u8, behind_background: bool, sp: SpriteInfo)
    requires
        line_sprites(s, y, behind_background).contains(sp),
    ensures
        s.contains(sp),
        covers_line(sp, y),
        sp.attr.priority == behind_background,
{
    let p = |x: SpriteInfo| draws_on(x, y, behind_background);
    let f = s.filter(p);
    assert(f.contains(sp)) by {
        if f.len() > 8 {
            let i = choose|i: int| 0 <= i < f.take(8).len() && f.take(8)[i] == sp;
            assert(f[i] == sp);
        }
    }
    s.filter_lemma(p);
    let i = choose|i: int| 0 <= i < f.len() && f[i] == sp;
    assert(p(f[i]));
    s.lemma_filter_contains_rev(p, sp);
}

} // verus!
