use vstd::prelude::*;

verus! {

/// A cartridge image: its header and the ROM banks that follow it.
#[derive(Debug, Clone)]
pub struct Nes {
    pub header: Header,
}

/// The iNES header with the program and character ROM it describes.
#[derive(Debug, Clone)]
pub struct Header {
    pub info: Info,
    pub flags6: Flags6,
    pub flags7: Flags7,
    pub flags8: Flags8,
    pub flags9: Flags9,
    pub flags10: Flags10,
}

/// Sizes and contents of the ROM banks.
#[derive(Debug, Clone)]
pub struct Info {
    pub nes_header_size: u32,
    pub chr_rom_per_size: u32,
    pub prg_rom_per_size: u32,
    pub default_canvas_width: u32,
    pub sprites_num: u32,
    pub chr_rom_start: u32,
    pub prg_rom: Vec<u8>,
    pub chr_rom: Vec<u8>,
}

/// Where the character ROM starts: after the 16-byte header and the
/// program ROM banks of 0x4000 bytes each, whose number is byte 4.
pub open spec fn chr_rom_start_of(b: Seq<u8>) -> int {
    0x10 + b[4] * 0x4000
}

/// Where the character ROM ends: its banks are 0x2000 bytes each, their
/// number is byte 5.
pub open spec fn chr_rom_end_of(b: Seq<u8>) -> int {
    chr_rom_start_of(b) + b[5] * 0x2000
}

/// The image starts with "NES" and is long enough for the banks its header
/// announces.
pub open spec fn is_nes_image(b: Seq<u8>) -> bool {
    &&& b.len() >= 16
    &&& b[0] == 0x4E
    &&& b[1] == 0x45
    &&& b[2] == 0x53
    &&& b.len() >= chr_rom_end_of(b)
}

impl Info {
    pub fn new(buffer: &[u8]) -> (r: Self)
        requires
            is_nes_image(buffer@),
        ensures
            r.nes_header_size == 0x10,
            r.prg_rom_per_size == 0x4000,
            r.chr_rom_per_size == 0x2000,
            r.default_canvas_width == 800,
            r.chr_rom_start == chr_rom_start_of(buffer@),
            r.sprites_num == buffer@[5] * 0x2000 / 16,
            r.prg_rom@ == buffer@.subrange(0x10, chr_rom_start_of(buffer@)),
            r.chr_rom@ == buffer@.subrange(chr_rom_start_of(buffer@), chr_rom_end_of(buffer@)),
    {
        let prm_rom_size = buffer[4] as u32;
        let chr_rom_size = buffer[5] as u32;
        let nes_header_size: u32 = 0x0010;
        let prg_rom_per_size: u32 = 0x4000;
        let chr_rom_per_size: u32 = 0x2000;
        let chr_rom_start = nes_header_size + prm_rom_size * prg_rom_per_size;
        let chr_rom_end = chr_rom_start + chr_rom_size * chr_rom_per_size;
        let default_canvas_width: u32 = 800;
        let sprites_num = chr_rom_per_size * chr_rom_size / 16;
        let prg_rom = vstd::slice::slice_to_vec(
            vstd::slice::slice_subrange(buffer, nes_header_size as usize, chr_rom_start as usize),
        );
        let chr_rom = vstd::slice::slice_to_vec(
            vstd::slice::slice_subrange(buffer, chr_rom_start as usize, chr_rom_end as usize),
        );

        Self {
            nes_header_size,
            chr_rom_per_size,
            prg_rom_per_size,
            default_canvas_width,
            sprites_num,
            chr_rom_start,
            prg_rom,
            chr_rom,
        }
    }
}

impl Header {
    pub fn new(buffer: &[u8]) -> (r: Self)
        requires
            is_nes_image(buffer@),
        ensures
            r.info.prg_rom@ == buffer@.subrange(0x10, chr_rom_start_of(buffer@)),
            r.info.chr_rom@ == buffer@.subrange(chr_rom_start_of(buffer@), chr_rom_end_of(buffer@)),
            r.info.chr_rom_start == chr_rom_start_of(buffer@),
            r.info.sprites_num == buffer@[5] * 0x2000 / 16,
            r.info.nes_header_size == 0x10,
            r.info.prg_rom_per_size == 0x4000,
            r.info.chr_rom_per_size == 0x2000,
            r.info.default_canvas_width == 800,
            r.flags6 == flags6_of(buffer@[6]),
            r.flags7 == flags7_of(buffer@[7]),
            r.flags8 == (Flags8 { prg_ram_size: buffer@[8] }),
            r.flags9 == flags9_of(buffer@[9]),
            r.flags10 == flags10_of(buffer@[10]),
    {
        let info = Info::new(buffer);
        let flags6 = Flags6::parse_buf(buffer[6]);
        let flags7 = Flags7::parse_buf(buffer[7]);
        let flags8 = Flags8::parse_buf(buffer[8]);
        let flags9 = Flags9::parse_buf(buffer[9]);
        let flags10 = Flags10::parse_buf(buffer[10]);

        Self { info, flags6, flags7, flags8, flags9, flags10 }
    }
}

/// How the nametables mirror each other.
#[derive(Debug, Clone, Copy, PartialEq, Eq, Structural)]
pub enum TypeOfMirroring {
    HORIZONTAL,
    VERTICAL,
    IGNORING,
}

/// Header byte 6.
#[derive(Debug, Clone, Copy, PartialEq, Eq, Structural)]
pub struct Flags6 {
    pub mirroring: bool,
    pub ram_or_memory: bool,
    pub trainer: bool,
    pub ignore_mirroring: bool,
    pub mapper: u8,
}

pub open spec fn flags6_of(data: u8) -> Flags6 {
    Flags6 {
        mirroring: data & 0x01 != 0,
        ram_or_memory: data & 0x02 != 0,
        trainer: data & 0x04 != 0,
        ignore_mirroring: data & 0x08 != 0,
        mapper: data >> 4,
    }
}

/// The mirroring that a byte-6 value selects: bit 3 ignores mirroring,
/// otherwise bit 0 chooses vertical over horizontal.
pub open spec fn mirroring_of(f: Flags6) -> TypeOfMirroring {
    if f.ignore_mirroring {
        TypeOfMirroring::IGNORING
    } else if f.mirroring {
        TypeOfMirroring::VERTICAL
    } else {
        TypeOfMirroring::HORIZONTAL
    }
}

impl Flags6 {
    pub fn parse_buf(data: u8) -> (r: Self)
        ensures
            r == flags6_of(data),
    {
        let mirroring = (data & 0b00000001) != 0;
        let ram_or_memory = (data & 0b00000010) != 0;
        let trainer = (data & 0b00000100) != 0;
        let ignore_mirroring = (data & 0b00001000) != 0;
        let mapper = (data & 0b11110000) >> 4;
        proof {
            crate::util::lemma_byte_fields(data);
        }

        Self { mirroring, ram_or_memory, trainer, ignore_mirroring, mapper }
    }

    pub fn get_type_of_mirroring(&self) -> (r: TypeOfMirroring)
        ensures
            r == mirroring_of(*self),
    {
        match self.ignore_mirroring {
            false => match self.mirroring {
                true => TypeOfMirroring::VERTICAL,
                false => TypeOfMirroring::HORIZONTAL,
            },
            true => TypeOfMirroring::IGNORING,
        }
    }
}

/// Header byte 7.
#[derive(Debug, Clone, Copy, PartialEq, Eq, Structural)]
pub struct Flags7 {
    pub vs_unisystem: bool,
    pub play_choice_10: bool,
    pub nes_20_format: u8,
    pub mapper: u8,
}

pub open spec fn flags7_of(data: u8) -> Flags7 {
    Flags7 {
        vs_unisystem: data & 0x01 != 0,
        play_choice_10: data & 0x02 != 0,
        nes_20_format: (data >> 2) & 0x03,
        mapper: data >> 4,
    }
}

impl Flags7 {
    pub fn parse_buf(data: u8) -> (r: Self)
        ensures
            r == flags7_of(data),
    {
        let vs_unisystem = (data & 0b00000001) != 0;
        let play_choice_10 = (data & 0b00000010) != 0;
        let nes_20_format = (data & 0b00001100) >> 2;
        let mapper = (data & 0b11110000) >> 4;
        proof {
            crate::util::lemma_byte_fields(data);
        }

        Self { vs_unisystem, play_choice_10, nes_20_format, mapper }
    }
}

/// Header byte 8.
#[derive(Debug, Clone, Copy, PartialEq, Eq, Structural)]
pub struct Flags8 {
    pub prg_ram_size: u8,
}

impl Flags8 {
    pub fn parse_buf(data: u8) -> (r: Self)
        ensures
            r.prg_ram_size == data,
    {
        let prg_ram_size = data;

        Self { prg_ram_size }
    }
}

/// Header byte 9.
#[derive(Debug, Clone, Copy, PartialEq, Eq, Structural)]
pub struct Flags9 {
    pub tv_system: bool,
    pub reserved: u8,
}

pub open spec fn flags9_of(data: u8) -> Flags9 {
    Flags9 { tv_system: data & 0x01 != 0, reserved: 0 }
}

impl Flags9 {
    pub fn parse_buf(data: u8) -> (r: Self)
        ensures
            r == flags9_of(data),
    {
        let tv_system = (data & 0b00000001) != 0;
        let reserved: u8 = 0;

        Self { tv_system, reserved }
    }
}

/// Header byte 10.
#[derive(Debug, Clone, Copy, PartialEq, Eq, Structural)]
pub struct Flags10 {
    pub tv_system: u8,
    pub prg_ram: bool,
    pub board_mode: bool,
}

pub open spec fn flags10_of(data: u8) -> Flags10 {
    Flags10 { tv_system: data & 0x03, prg_ram: data & 0x10 != 0, board_mode: data & 0x20 != 0 }
}

impl Flags10 {
    pub fn parse_buf(data: u8) -> (r: Self)
        ensures
            r == flags10_of(data),
    {
        let tv_system = data & 0b00000011;
        let prg_ram = (data & 0b00010000) != 0;
        let board_mode = (data & 0b00100000) != 0;

        Self { tv_system, prg_ram, board_mode }
    }
}

impl Nes {
    /// Whether the bytes are a cartridge image that `new` can read: they
    /// start with "NES" and hold the banks the header announces.
    pub fn is_image(buffer: &[u8]) -> (r: bool)
        ensures
            r == is_nes_image(buffer@),
    {
        if buffer.len() < 16 {
            return false;
        }
        let end: u64 = 0x10 + buffer[4] as u64 * 0x4000 + buffer[5] as u64 * 0x2000;
        buffer[0] == 0x4E && buffer[1] == 0x45 && buffer[2] == 0x53 && (buffer.len() as u64) >= end
    }

    /// A cartridge read from the bytes of an image file.
    pub fn new(buffer: &[u8]) -> (r: Self)
        requires
            is_nes_image(buffer@),
        ensures
            r.header.info.prg_rom@ == buffer@.subrange(0x10, chr_rom_start_of(buffer@)),
            r.header.info.chr_rom@ == buffer@.subrange(
                chr_rom_start_of(buffer@),
                chr_rom_end_of(buffer@),
            ),
            r.header.flags6 == flags6_of(buffer@[6]),
            r.header.info.sprites_num == buffer@[5] * 0x2000 / 16,
    {
        let header = Header::new(buffer);
        Self { header }
    }
}

} // verus!
