use vstd::prelude::*;

verus! {

pub type SpriteInfos = Vec<SpriteInfo>;

/// The 64 sprites of object attribute memory.
#[derive(Debug, Clone)]
pub struct PrimaryOAM {
    pub sprite_infos: SpriteInfos,
}

impl Default for PrimaryOAM {
    fn default() -> (r: Self)
        ensures
            r.sprite_infos@ == Seq::new(64, |i: int| SpriteInfo::blank()),
    {
        Self::new()
    }
}

/// The sprite that four OAM bytes describe: Y position, tile number,
/// attributes, X position.
pub open spec fn sprite_of_bytes(y: u8, tile: u8, attr: u8, x: u8) -> SpriteInfo {
    SpriteInfo {
        pos_y: y,
        tile_index: TileIndex { tile_number: tile, bank_of_tile: false },
        attr: attr_of_byte(attr),
        pos_x: x,
    }
}

impl PrimaryOAM {
    pub fn new() -> (r: Self)
        ensures
            r.sprite_infos@ == Seq::new(64, |i: int| SpriteInfo::blank()),
    {
        let sprite_info = SpriteInfo::default();
        let sprite_infos = vec![sprite_info; 64];
        assert(sprite_infos@ =~= Seq::new(64, |i: int| SpriteInfo::blank()));
        Self { sprite_infos }
    }

    /// Appends the sprite that the first four bytes of `data` describe.
    pub fn push_sprite_info(&mut self, data: &Vec<u8>)
        requires
            data.len() >= 4,
        ensures
            final(self).sprite_infos@ == old(self).sprite_infos@.push(
                sprite_of_bytes(data@[0], data@[1], data@[2], data@[3]),
            ),
    {
        let mut tile_index = TileIndex::default();
        tile_index.set(data[1]);
        let mut attr = Attr::default();
        attr.set(data[2]);

        let sprite_info = SpriteInfo { pos_y: data[0], tile_index, attr, pos_x: data[3] };

        self.sprite_infos.push(sprite_info);
    }

    /// Stores the sprite that the first four bytes of `data` describe at the
    /// sprite slot that the OAM byte address `target` falls in; past the
    /// last slot the sprite is appended.
    pub fn put_sprite_info(&mut self, data: &Vec<u8>, target: u8)
        requires
            data.len() >= 4,
        ensures
            final(self).sprite_infos@ == (if ((target / 4) as int) < old(self).sprite_infos@.len() {
                old(self).sprite_infos@.update(
                    (target / 4) as int,
                    sprite_of_bytes(data@[0], data@[1], data@[2], data@[3]),
                )
            } else {
                old(self).sprite_infos@.push(sprite_of_bytes(data@[0], data@[1], data@[2], data@[3]))
            }),
    {
        let mut tile_index = TileIndex::default();
        tile_index.set(data[1]);
        let mut attr = Attr::default();
        attr.set(data[2]);

        let sprite_info = SpriteInfo { pos_y: data[0], tile_index, attr, pos_x: data[3] };
        let slot = (target / 4) as usize;
        if slot < self.sprite_infos.len() {
            self.sprite_infos.set(slot, sprite_info);
        } else {
            self.sprite_infos.push(sprite_info);
        }
    }

    /// Replaces the sprites by the 63 sprites that the first 252 bytes of
    /// `v` describe, four bytes each.
    pub fn set_sprite_infos(&mut self, v: Vec<u8>)
        requires
            v.len() >= 252,
        ensures
            final(self).sprite_infos@ == Seq::new(
                63,
                |i: int| sprite_of_bytes(v@[4 * i], v@[4 * i + 1], v@[4 * i + 2], v@[4 * i + 3]),
            ),
    {
        let mut sprite_infos: SpriteInfos = vec![];
        for i in 0..63
            invariant
                v.len() >= 252,
                sprite_infos@ =~= Seq::new(
                    i as nat,
                    |k: int|
                        sprite_of_bytes(v@[4 * k], v@[4 * k + 1], v@[4 * k + 2], v@[4 * k + 3]),
                ),
        {
            let sprite_idx: usize = i * 4;
            let mut tile_index = TileIndex::default();
            tile_index.set(v[(sprite_idx + 1) as usize]);
            let mut attr = Attr::default();
            attr.set(v[(sprite_idx + 2) as usize]);

            let sprite_info = SpriteInfo {
                pos_y: v[(sprite_idx + 0) as usize],
                tile_index,
                attr,
                pos_x: v[(sprite_idx + 3) as usize],
            };
            sprite_infos.push(sprite_info);
        }
        self.sprite_infos = sprite_infos;
    }
}

/// One sprite of OAM.
#[derive(Debug, Clone, Copy, PartialEq, Eq, Structural)]
pub struct SpriteInfo {
    pub pos_y: u8,
    pub tile_index: TileIndex,
    pub attr: Attr,
    pub pos_x: u8,
}

impl Default for SpriteInfo {
    fn default() -> (r: Self)
        ensures
            r == SpriteInfo::blank(),
    {
        Self::new()
    }
}

/// The sprite covers line `y`: its eight rows start at its Y position.
pub open spec fn covers_line(s: SpriteInfo, y: u8) -> bool {
    s.pos_y <= y && s.pos_y + 7 >= y
}

impl SpriteInfo {
    pub open spec fn blank() -> SpriteInfo {
        SpriteInfo {
            pos_y: 0,
            tile_index: TileIndex { tile_number: 0, bank_of_tile: false },
            attr: attr_of_byte(0),
            pos_x: 0,
        }
    }

    pub fn new() -> (r: Self)
        ensures
            r == SpriteInfo::blank(),
    {
        Self { pos_y: 0, tile_index: TileIndex::default(), attr: Attr::default(), pos_x: 0 }
    }

    pub fn in_drawing_range(&self, y: u8) -> (r: bool)
        requires
            self.pos_y + 7 <= u8::MAX,
        ensures
            r == covers_line(*self, y),
    {
        (self.pos_y <= y) && (self.pos_y + 7 >= y)
    }

    /// The priority bit puts the sprite behind the background.
    pub fn behind_of_background(&self) -> (r: bool)
        ensures
            r == self.attr.priority,
    {
        self.attr.priority
    }

    pub fn front_of_background(&self) -> (r: bool)
        ensures
            r == !self.attr.priority,
    {
        !self.attr.priority
    }
}

/// The tile a sprite shows.
#[derive(Debug, Clone, Copy, PartialEq, Eq, Structural)]
pub struct TileIndex {
    pub tile_number: u8,
    pub bank_of_tile: bool,
}

impl Default for TileIndex {
    fn default() -> (r: Self)
        ensures
            r == (TileIndex { tile_number: 0, bank_of_tile: false }),
    {
        Self::new()
    }
}

impl TileIndex {
    pub fn new() -> (r: Self)
        ensures
            r == (TileIndex { tile_number: 0, bank_of_tile: false }),
    {
        Self { tile_number: 0, bank_of_tile: false }
    }

    pub fn set(&mut self, n: u8)
        ensures
            *final(self) == (TileIndex { tile_number: n, ..*old(self) }),
    {
        self.tile_number = n;
    }
}

/// Sprite attributes.
#[derive(Debug, Clone, Copy, PartialEq, Eq, Structural)]
pub struct Attr {
    pub flip_sprite_vertically: bool,
    pub flip_sprite_horizontally: bool,
    pub priority: bool,
    pub unimplemented: u8,
    pub palette: u8,
}

/// The attributes that an OAM attribute byte gives.
pub open spec fn attr_of_byte(n: u8) -> Attr {
    Attr {
        flip_sprite_vertically: n & 0x80 != 0,
        flip_sprite_horizontally: n & 0x40 != 0,
        priority: n & 0x20 != 0,
        unimplemented: n & 0x1C,
        palette: n & 0x03,
    }
}

impl Default for Attr {
    fn default() -> (r: Self)
        ensures
            r == attr_of_byte(0),
    {
        Self::new()
    }
}

impl Attr {
    pub fn new() -> (r: Self)
        ensures
            r == attr_of_byte(0),
    {
        proof {
            crate::util::lemma_masked(0, 0x80);
            crate::util::lemma_masked(0, 0x40);
            crate::util::lemma_masked(0, 0x20);
            crate::util::lemma_masked(0, 0x1C);
            crate::util::lemma_masked(0, 0x03);
        }
        Self {
            flip_sprite_vertically: false,
            flip_sprite_horizontally: false,
            priority: false,
            unimplemented: 0,
            palette: 0,
        }
    }

    pub fn set(&mut self, n: u8)
        ensures
            *final(self) == attr_of_byte(n),
    {
        self.flip_sprite_vertically = (n & 0b10000000) != 0;
        self.flip_sprite_horizontally = (n & 0b01000000) != 0;
        self.priority = (n & 0b00100000) != 0;
        self.unimplemented = n & 0b00011100;
        self.palette = n & 0b00000011;
    }
}

/// The sprites picked for the line being drawn.
#[derive(Debug, Clone)]
pub struct SecondaryOAM {
    pub sprite_infos: SpriteInfos,
}

impl Default for SecondaryOAM {
    fn default() -> (r: Self)
        ensures
            r.sprite_infos@ == Seq::new(8, |i: int| SpriteInfo::blank()),
    {
        Self::new()
    }
}

/// The sprite of `s` that the first search for X position `x` finds.
pub open spec fn first_at_x(s: Seq<SpriteInfo>, x: u8) -> Option<SpriteInfo> {
    if exists|i: int| 0 <= i < s.len() && s[i].pos_x == x {
        let i = choose|i: int|
            0 <= i < s.len() && s[i].pos_x == x && forall|j: int| 0 <= j < i ==> s[j].pos_x != x;
        Some(s[i])
    } else {
        None
    }
}

impl SecondaryOAM {
    pub fn new() -> (r: Self)
        ensures
            r.sprite_infos@ == Seq::new(8, |i: int| SpriteInfo::blank()),
    {
        let sprite_info = SpriteInfo::default();
        let sprite_infos = vec![sprite_info; 8];
        assert(sprite_infos@ =~= Seq::new(8, |i: int| SpriteInfo::blank()));
        Self { sprite_infos }
    }

    pub fn clear_sprite_infos(&mut self)
        ensures
            final(self).sprite_infos@ == Seq::<SpriteInfo>::empty(),
    {
        let sprite_infos = vec![];
        self.sprite_infos = sprite_infos;
    }

    /// The first sprite whose X position is `x`.
    pub fn pick_sprite_info_with_x(&mut self, x: u8) -> (r: Option<SpriteInfo>)
        ensures
            r == first_at_x(old(self).sprite_infos@, x),
            *final(self) == *old(self),
    {
        let n = self.sprite_infos.len();
        let mut i: usize = 0;
        while i < n
            invariant
                n == self.sprite_infos.len(),
                i <= n,
                forall|j: int| 0 <= j < i ==> self.sprite_infos@[j].pos_x != x,
            decreases n - i,
        {
            if self.sprite_infos[i].pos_x == x {
                let ghost s = self.sprite_infos@;
                proof {
                    let k = choose|k: int|
                        0 <= k < s.len() && s[k].pos_x == x && forall|j: int|
                            0 <= j < k ==> s[j].pos_x != x;
                    assert(0 <= i < s.len() && s[i as int].pos_x == x && forall|j: int|
                        0 <= j < i ==> s[j].pos_x != x);
                    if k < i {
                        assert(s[k].pos_x != x);
                    } else if k > i {
                        assert(s[i as int].pos_x != x);
                    }
                }
                return Some(self.sprite_infos[i]);
            }
            i += 1;
        }
        None
    }
}

/// Among the sprites at X position `x` up to index `k` there is a first.
proof fn lemma_first_index(s: Seq<SpriteInfo>, x: u8, k: int)
    requires
        0 <= k < s.len(),
        s[k].pos_x == x,
    ensures
        exists|i: int|
            0 <= i <= k && s[i].pos_x == x && forall|j: int| 0 <= j < i ==> s[j].pos_x != x,
    decreases k,
{
    if exists|j: int| 0 <= j < k && s[j].pos_x == x {
        let j = choose|j: int| 0 <= j < k && s[j].pos_x == x;
        lemma_first_index(s, x, j);
    } else {
        assert(forall|j: int| 0 <= j < k ==> s[j].pos_x != x);
    }
}

/// The sprite that a search by X position finds is one of the sprites.
pub proof fn lemma_first_at_x_member(s: Seq<SpriteInfo>, x: u8)
    ensures
        first_at_x(s, x) matches Some(sp) ==> s.contains(sp),
{
    if exists|i: int| 0 <= i < s.len() && s[i].pos_x == x {
        let k = choose|i: int| 0 <= i < s.len() && s[i].pos_x == x;
        lemma_first_index(s, x, k);
        let i = choose|i: int|
            0 <= i < s.len() && s[i].pos_x == x && forall|j: int| 0 <= j < i ==> s[j].pos_x != x;
        assert(first_at_x(s, x) == Some(s[i]));
        assert(s.contains(s[i]));
    }
}

} // verus!
