use vstd::prelude::*;

use crate::bus::Mapper;
use crate::nes::{Nes, TypeOfMirroring, mirroring_of};

verus! {

/// The PPU memory map as plain values: one byte cell per address
/// 0x0000..=0x3FFF, and the mirroring the cartridge selects.
pub struct PpuMapView {
    pub mem: Seq<u8>,
    pub type_of_mirroring: TypeOfMirroring,
}

/// The nametable address that mirrors `a` under the given mirroring:
/// horizontal mirroring pairs tables 0 with 1 and 2 with 3, vertical
/// mirroring pairs 0 with 2 and 1 with 3.
pub open spec fn mirrored_nametable_addr(m: TypeOfMirroring, a: u16) -> Option<int> {
    if 0x2000 <= a < 0x3000 {
        match m {
            TypeOfMirroring::HORIZONTAL => Some((a ^ 0x400) as int),
            TypeOfMirroring::VERTICAL => Some((a ^ 0x800) as int),
            TypeOfMirroring::IGNORING => None,
        }
    } else {
        None
    }
}

/// The cell that a palette write at `a` also stores to: the backdrop
/// entries 0x3F00, 0x3F04, 0x3F08, 0x3F0C and 0x3F10, 0x3F14, 0x3F18,
/// 0x3F1C are written in pairs 0x10 apart.
pub open spec fn mirrored_palette_addr(a: u16) -> Option<int> {
    if a == 0x3F00 || a == 0x3F04 || a == 0x3F08 || a == 0x3F0C {
        Some(a + 0x10)
    } else if a == 0x3F10 || a == 0x3F14 || a == 0x3F18 || a == 0x3F1C {
        Some(a - 0x10)
    } else {
        None
    }
}

/// The byte a read of `a` gives: the cell of `a`, except that 0x3F04,
/// 0x3F08 and 0x3F0C read the backdrop colour at 0x3F00.
pub open spec fn ppu_map_read(v: PpuMapView, a: u16) -> u8 {
    if a == 0x3F04 || a == 0x3F08 || a == 0x3F0C {
        v.mem[0x3F00]
    } else {
        v.mem[a as int]
    }
}

/// The cells after a write of `d` at `a`: the cell of `a` and the cell
/// that mirrors it; writes at or above 0x4000 change nothing.
pub open spec fn ppu_map_written(v: PpuMapView, a: u16, d: u8) -> PpuMapView {
    if a >= 0x4000 {
        v
    } else {
        let partner = if 0x2000 <= a < 0x3000 {
            mirrored_nametable_addr(v.type_of_mirroring, a)
        } else {
            mirrored_palette_addr(a)
        };
        let mem = match partner {
            Some(p) => v.mem.update(p, d),
            None => v.mem,
        };
        PpuMapView { mem: mem.update(a as int, d), ..v }
    }
}

/// Where the two nametable partners of an address lie.
pub proof fn lemma_nametable_partner(a: u16)
    by (bit_vector)
    requires
        0x2000 <= a < 0x3000,
    ensures
        0x2000 <= a < 0x2400 ==> a ^ 0x400 == a + 0x400 && a ^ 0x800 == a + 0x800,
        0x2400 <= a < 0x2800 ==> a ^ 0x400 == a - 0x400 && a ^ 0x800 == a + 0x800,
        0x2800 <= a < 0x2C00 ==> a ^ 0x400 == a + 0x400 && a ^ 0x800 == a - 0x800,
        0x2C00 <= a < 0x3000 ==> a ^ 0x400 == a - 0x400 && a ^ 0x800 == a - 0x800,
{
}

/// A read of a PPU address gives back the byte last written there, for
/// every address below 0x4000 but 0x3F04, 0x3F08 and 0x3F0C, which read
/// the backdrop colour; under horizontal or vertical mirroring the
/// nametable partner of the address reads the byte too.
pub proof fn lemma_ppu_map_read_after_write(v: PpuMapView, a: u16, d: u8)
    requires
        v.mem.len() == 0x4000,
        a < 0x4000,
        a != 0x3F04 && a != 0x3F08 && a != 0x3F0C,
    ensures
        ppu_map_read(ppu_map_written(v, a, d), a) == d,
        0x2000 <= a < 0x3000 && v.type_of_mirroring == TypeOfMirroring::HORIZONTAL
            ==> ppu_map_read(ppu_map_written(v, a, d), a ^ 0x400) == d,
        0x2000 <= a < 0x3000 && v.type_of_mirroring == TypeOfMirroring::VERTICAL
            ==> ppu_map_read(ppu_map_written(v, a, d), a ^ 0x800) == d,
{
    if 0x2000 <= a < 0x3000 {
        lemma_nametable_partner(a);
    }
}

/// The PPU address space: pattern tables, nametables, palettes.
#[derive(Debug, Clone)]
pub struct PpuMap {
    pub pattern_table_00: [u8; 0x1000],
    pub pattern_table_01: [u8; 0x1000],
    pub name_table_00: [u8; 0x03C0],
    pub attr_table_00: [u8; 0x0040],
    pub name_table_01: [u8; 0x03C0],
    pub attr_table_01: [u8; 0x0040],
    pub name_table_02: [u8; 0x03C0],
    pub attr_table_02: [u8; 0x0040],
    pub name_table_03: [u8; 0x03C0],
    pub attr_table_03: [u8; 0x0040],
    pub name_and_attr_table_mirror: [u8; 0x0F00],
    pub background_table: [u8; 0x0010],
    pub sprite_pallet: [u8; 0x0010],
    pub background_and_sprite_pallet_mirror: [u8; 0x00E0],
    pub type_of_mirroring: TypeOfMirroring,
}

impl View for PpuMap {
    type V = PpuMapView;

    closed spec fn view(&self) -> PpuMapView {
        PpuMapView {
            mem: Seq::new(
                0x4000,
                |i: int|
                    if i < 0x1000 {
                        self.pattern_table_00@[i - 0x0000]
                    } else if i < 0x2000 {
                        self.pattern_table_01@[i - 0x1000]
                    } else if i < 0x23C0 {
                        self.name_table_00@[i - 0x2000]
                    } else if i < 0x2400 {
                        self.attr_table_00@[i - 0x23C0]
                    } else if i < 0x27C0 {
                        self.name_table_01@[i - 0x2400]
                    } else if i < 0x2800 {
                        self.attr_table_01@[i - 0x27C0]
                    } else if i < 0x2BC0 {
                        self.name_table_02@[i - 0x2800]
                    } else if i < 0x2C00 {
                        self.attr_table_02@[i - 0x2BC0]
                    } else if i < 0x2FC0 {
                        self.name_table_03@[i - 0x2C00]
                    } else if i < 0x3000 {
                        self.attr_table_03@[i - 0x2FC0]
                    } else if i < 0x3F00 {
                        self.name_and_attr_table_mirror@[i - 0x3000]
                    } else if i < 0x3F10 {
                        self.background_table@[i - 0x3F00]
                    } else if i < 0x3F20 {
                        self.sprite_pallet@[i - 0x3F10]
                    } else {
                        self.background_and_sprite_pallet_mirror@[i - 0x3F20]
                    },
            ),
            type_of_mirroring: self.type_of_mirroring,
        }
    }
}

impl PpuMap {
    /// Whether every palette entry 0x3F00..=0x3F1F names one of the 64
    /// picture colours.
    pub fn palette_in_range(&self) -> (r: bool)
        ensures
            r == (forall|a: int| 0x3F00 <= a < 0x3F20 ==> #[trigger] self@.mem[a] < 64),
    {
        let mut i: usize = 0;
        while i < 16
            invariant
                i <= 16,
                forall|a: int| 0x3F00 <= a < 0x3F00 + i ==> #[trigger] self@.mem[a] < 64,
            decreases 16 - i,
        {
            if self.background_table[i] >= 64 {
                assert(self@.mem[0x3F00 + i as int] >= 64);
                return false;
            }
            i += 1;
        }
        let mut j: usize = 0;
        while j < 16
            invariant
                j <= 16,
                forall|a: int| 0x3F00 <= a < 0x3F10 + j ==> #[trigger] self@.mem[a] < 64,
            decreases 16 - j,
        {
            if self.sprite_pallet[j] >= 64 {
                assert(self@.mem[0x3F10 + j as int] >= 64);
                return false;
            }
            j += 1;
        }
        true
    }

    pub fn new(nes: &Nes) -> (r: Self)
        ensures
            r@.type_of_mirroring == mirroring_of(nes.header.flags6),
            r.type_of_mirroring == mirroring_of(nes.header.flags6),
            forall|i: int| 0 <= i < 0x4000 ==> r@.mem[i] == 0,
    {
        let type_of_mirroring = nes.header.flags6.get_type_of_mirroring();
        Self {
            pattern_table_00: [0;0x1000],
            pattern_table_01: [0;0x1000],
            name_table_00: [0;0x03C0],
            attr_table_00: [0;0x0040],
            name_table_01: [0;0x03C0],
            attr_table_01: [0;0x0040],
            name_table_02: [0;0x03C0],
            attr_table_02: [0;0x0040],
            name_table_03: [0;0x03C0],
            attr_table_03: [0;0x0040],
            name_and_attr_table_mirror: [0;0x0F00],
            background_table: [0;0x0010],
            sprite_pallet: [0;0x0010],
            background_and_sprite_pallet_mirror: [0;0x00E0],
            type_of_mirroring,
        }
    }
}

impl Mapper for PpuMap {
    open spec fn readable(&self, addr: u16) -> bool {
        addr < 0x4000
    }

    open spec fn writable(&self, addr: u16) -> bool {
        true
    }

    fn addr(&mut self, addr: u16) -> (r: u8)
        ensures
            r == ppu_map_read(old(self)@, addr),
            *final(self) == *old(self),
    {
        match addr {
            0x0000..=0x0FFF => self.pattern_table_00[addr as usize],
            0x1000..=0x1FFF => self.pattern_table_01[(addr - 0x1000) as usize],
            0x2000..=0x23BF => self.name_table_00[(addr - 0x2000) as usize],
            0x23C0..=0x23FF => self.attr_table_00[(addr - 0x23C0) as usize],
            0x2400..=0x27BF => self.name_table_01[(addr - 0x2400) as usize],
            0x27C0..=0x27FF => self.attr_table_01[(addr - 0x27C0) as usize],
            0x2800..=0x2BBF => self.name_table_02[(addr - 0x2800) as usize],
            0x2BC0..=0x2BFF => self.attr_table_02[(addr - 0x2BC0) as usize],
            0x2C00..=0x2FBF => self.name_table_03[(addr - 0x2C00) as usize],
            0x2FC0..=0x2FFF => self.attr_table_03[(addr - 0x2FC0) as usize],
            0x3000..=0x3EFF => self.name_and_attr_table_mirror[(addr - 0x3000) as usize],
            0x3F00 | 0x3F04 | 0x3F08 | 0x3F0C => self.background_table[0 as usize],
            0x3F01..=0x3F03 | 0x3F05..=0x3F07 | 0x3F09..=0x3F0B | 0x03F0D..=0x03F0F => {
                self.background_table[(addr - 0x3F00) as usize]
            }
            0x3F10..=0x3F1F => self.sprite_pallet[(addr - 0x3F10) as usize],
            0x3F20..=0x3FFF => self.background_and_sprite_pallet_mirror[(addr - 0x3F20) as usize],
            _ => {
                assert(false);
                0
            },
        }
    }

    fn set(&mut self, addr: u16, data: u8)
        ensures
            final(self)@ == ppu_map_written(old(self)@, addr, data),
            final(self).type_of_mirroring == old(self).type_of_mirroring,
    {
        let ghost v = self@;
        if 0x2000 <= addr && addr < 0x3000 {
            proof {
                lemma_nametable_partner(addr);
            }
        }
        match addr {
            0x0000..=0x0FFF => self.pattern_table_00[addr as usize] = data,
            0x1000..=0x1FFF => self.pattern_table_01[(addr - 0x1000) as usize] = data,
            0x2000..=0x23BF => {
                match self.type_of_mirroring {
                    TypeOfMirroring::HORIZONTAL => {
                        self.name_table_01[(addr - 0x2000) as usize] = data
                    }
                    TypeOfMirroring::VERTICAL => {
                        self.name_table_02[(addr - 0x2000) as usize] = data
                    }
                    _ => (),
                }
                self.name_table_00[(addr - 0x2000) as usize] = data;
            }
            0x23C0..=0x23FF => {
                match self.type_of_mirroring {
                    TypeOfMirroring::HORIZONTAL => {
                        self.attr_table_01[(addr - 0x23C0) as usize] = data
                    }
                    TypeOfMirroring::VERTICAL => {
                        self.attr_table_02[(addr - 0x23C0) as usize] = data
                    }
                    _ => (),
                }
                self.attr_table_00[(addr - 0x23C0) as usize] = data;
            }
            0x2400..=0x27BF => {
                match self.type_of_mirroring {
                    TypeOfMirroring::HORIZONTAL => {
                        self.name_table_00[(addr - 0x2400) as usize] = data
                    }
                    TypeOfMirroring::VERTICAL => {
                        self.name_table_03[(addr - 0x2400) as usize] = data
                    }
                    _ => (),
                }
                self.name_table_01[(addr - 0x2400) as usize] = data;
            }
            0x27C0..=0x27FF => {
                match self.type_of_mirroring {
                    TypeOfMirroring::HORIZONTAL => {
                        self.attr_table_00[(addr - 0x27C0) as usize] = data
                    }
                    TypeOfMirroring::VERTICAL => {
                        self.attr_table_03[(addr - 0x27C0) as usize] = data
                    }
                    _ => (),
                }
                self.attr_table_01[(addr - 0x27C0) as usize] = data;
            }
            0x2800..=0x2BBF => {
                match self.type_of_mirroring {
                    TypeOfMirroring::HORIZONTAL => {
                        self.name_table_03[(addr - 0x2800) as usize] = data
                    }
                    TypeOfMirroring::VERTICAL => {
                        self.name_table_00[(addr - 0x2800) as usize] = data
                    }
                    _ => (),
                }
                self.name_table_02[(addr - 0x2800) as usize] = data;
            }
            0x2BC0..=0x2BFF => {
                match self.type_of_mirroring {
                    TypeOfMirroring::HORIZONTAL => {
                        self.attr_table_03[(addr - 0x2BC0) as usize] = data
                    }
                    TypeOfMirroring::VERTICAL => {
                        self.attr_table_00[(addr - 0x2BC0) as usize] = data
                    }
                    _ => (),
                }
                self.attr_table_02[(addr - 0x2BC0) as usize] = data;
            }
            0x2C00..=0x2FBF => {
                match self.type_of_mirroring {
                    TypeOfMirroring::HORIZONTAL => {
                        self.name_table_02[(addr - 0x2C00) as usize] = data
                    }
                    TypeOfMirroring::VERTICAL => {
                        self.name_table_01[(addr - 0x2C00) as usize] = data
                    }
                    _ => (),
                }
                self.name_table_03[(addr - 0x2C00) as usize] = data;
            }
            0x2FC0..=0x2FFF => {
                match self.type_of_mirroring {
                    TypeOfMirroring::HORIZONTAL => {
                        self.attr_table_02[(addr - 0x2FC0) as usize] = data
                    }
                    TypeOfMirroring::VERTICAL => {
                        self.attr_table_01[(addr - 0x2FC0) as usize] = data
                    }
                    _ => (),
                }
                self.attr_table_03[(addr - 0x2FC0) as usize] = data;
            }
            0x3000..=0x3EFF => self.name_and_attr_table_mirror[(addr - 0x3000) as usize] = data,
            0x3F00 | 0x3F04 | 0x3F08 | 0x3F0C => {
                self.sprite_pallet[(addr - 0x3F00) as usize] = data;
                self.background_table[(addr - 0x3F00) as usize] = data;
            }
            0x3F01..=0x3F03 | 0x3F05..=0x3F07 | 0x3F09..=0x3F0B | 0x03F0D..=0x03F0F => {
                self.background_table[(addr - 0x3F00) as usize] = data
            }
            0x3F10 | 0x3F14 | 0x3F18 | 0x3F1C => {
                self.background_table[(addr - 0x3F10) as usize] = data;
                self.sprite_pallet[(addr - 0x3F10) as usize] = data;
            }
            0x3F11..=0x3F13 | 0x3F15..=0x3F17 | 0x3F19..=0x3F1B | 0x03F1D..=0x03F1F => {
                self.sprite_pallet[(addr - 0x3F10) as usize] = data
            }
            0x3F20..=0x3FFF => {
                self.background_and_sprite_pallet_mirror[(addr - 0x3F20) as usize] = data
            }
            _ => (),
        };
        assert(self@.mem =~= ppu_map_written(v, addr, data).mem);
    }
}

/// The sprite palette array holds the cells 0x3F10..=0x3F1F.
pub proof fn lemma_sprite_palette_cells(m: PpuMap)
    ensures
        m@.mem.len() == 0x4000,
        forall|i: int| 0 <= i < 16 ==> m.sprite_pallet@[i] == #[trigger] m@.mem[0x3F10 + i],
{
}

} // verus!
