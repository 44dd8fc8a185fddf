use vstd::prelude::*;

verus! {

/// One entry of the instruction table: what an opcode does, how it finds
/// its operand, and how many cycles it takes.
#[derive(Debug, Clone, Copy, PartialEq, Eq, Structural)]
pub struct Operator {
    pub ope_kind: OpeKind,
    pub addr_mode: AddrMode,
    pub cycle: u8,
}

/// Addressing modes.
#[derive(Debug, Clone, Copy, PartialEq, Eq, Structural)]
pub enum AddrMode {
    Acc,
    Imm,
    Abs,
    AbsX,
    AbsY,
    Zp,
    ZpX,
    ZpY,
    Impl,
    Rel,
    IndX,
    IndY,
    Ind,
    Nop,
}

/// Instruction kinds, the documented ones and the undocumented ones.
#[derive(Debug, Clone, Copy, PartialEq, Eq, Structural)]
pub enum OpeKind {
    Adc,
    Sbc,
    And,
    Ora,
    Eor,
    Asl,
    Lsr,
    Rol,
    Ror,
    Bcc,
    Bcs,
    Beq,
    Bne,
    Bvc,
    Bvs,
    Bpl,
    Bmi,
    Bit,
    Jmp,
    Jsr,
    Rts,
    Brk,
    Rti,
    Cmp,
    Cpx,
    Cpy,
    Inc,
    Dec,
    Inx,
    Dex,
    Iny,
    Dey,
    Clc,
    Sec,
    Cli,
    Sei,
    Cld,
    Sed,
    Clv,
    Lda,
    Ldx,
    Ldy,
    Sta,
    Stx,
    Sty,
    Tax,
    Txa,
    Tay,
    Tya,
    Tsx,
    Txs,
    Pha,
    Pla,
    Php,
    Plp,
    Nop,
    Dop,
    Kil,
    Slo,
    Aac,
    Atx,
    Top,
    Rla,
    Sre,
    Dcp,
    Asr,
    Rra,
    Arr,
    Aax,
    Xaa,
    Axa,
    Xas,
    Sxa,
    Sya,
    Lax,
    Lar,
    Axs,
    Isc,
    Isb,
    Las,
    Lxa,
    Sax,
}

/// The number of cycles of each opcode, indexed by the opcode.
pub open spec fn cycle_table() -> Seq<u8> {
    seq![
        7, 6, 2, 8, 3, 3, 5, 5, 3, 2, 2, 2, 4, 4, 6, 6,
        2, 5, 2, 8, 4, 4, 6, 6, 2, 4, 2, 7, 4, 4, 6, 7,
        6, 6, 2, 8, 3, 3, 5, 5, 4, 2, 2, 2, 4, 4, 6, 6,
        2, 5, 2, 8, 4, 4, 6, 6, 2, 4, 2, 7, 4, 4, 6, 7,
        6, 6, 2, 8, 3, 3, 5, 5, 3, 2, 2, 2, 3, 4, 6, 6,
        2, 5, 2, 8, 4, 4, 6, 6, 2, 4, 2, 7, 4, 4, 6, 7,
        6, 6, 2, 8, 3, 3, 5, 5, 4, 2, 2, 2, 5, 4, 6, 6,
        2, 5, 2, 8, 4, 4, 6, 6, 2, 4, 2, 7, 4, 4, 6, 7,
        2, 6, 6, 6, 3, 3, 3, 3, 2, 2, 2, 2, 4, 4, 4, 4,
        2, 5, 2, 6, 4, 4, 4, 4, 2, 5, 2, 5, 5, 4, 5, 5,
        2, 6, 2, 6, 3, 3, 3, 3, 2, 2, 2, 2, 4, 4, 4, 4,
        2, 5, 2, 5, 4, 4, 4, 4, 2, 4, 2, 4, 4, 4, 4, 4,
        2, 6, 2, 8, 3, 3, 5, 5, 2, 2, 2, 2, 4, 4, 6, 6,
        2, 5, 2, 8, 4, 4, 6, 6, 2, 4, 2, 7, 4, 4, 7, 7,
        2, 6, 3, 8, 3, 3, 5, 5, 2, 2, 2, 2, 4, 4, 6, 6,
        2, 5, 2, 8, 4, 4, 6, 6, 2, 4, 2, 7, 4, 4, 7, 7,
    ]
}

/// The instruction that each opcode stands for.
pub open spec fn spec_operator(code: u8) -> Operator {
    let (ope_kind, addr_mode) = match code {
        0x00 => (OpeKind::Brk, AddrMode::Impl),
        0x01 => (OpeKind::Ora, AddrMode::IndX),
        0x02 => (OpeKind::Kil, AddrMode::Impl),
        0x03 => (OpeKind::Slo, AddrMode::IndX),
        0x04 => (OpeKind::Dop, AddrMode::Zp),
        0x05 => (OpeKind::Ora, AddrMode::Zp),
        0x06 => (OpeKind::Asl, AddrMode::Zp),
        0x07 => (OpeKind::Slo, AddrMode::Zp),
        0x08 => (OpeKind::Php, AddrMode::Impl),
        0x09 => (OpeKind::Ora, AddrMode::Imm),
        0x0A => (OpeKind::Asl, AddrMode::Acc),
        0x0B => (OpeKind::Aac, AddrMode::Imm),
        0x0C => (OpeKind::Top, AddrMode::Abs),
        0x0D => (OpeKind::Ora, AddrMode::Abs),
        0x0E => (OpeKind::Asl, AddrMode::Abs),
        0x0F => (OpeKind::Slo, AddrMode::Abs),
        0x10 => (OpeKind::Bpl, AddrMode::Rel),
        0x11 => (OpeKind::Ora, AddrMode::IndY),
        0x12 => (OpeKind::Kil, AddrMode::Impl),
        0x13 => (OpeKind::Slo, AddrMode::IndY),
        0x14 => (OpeKind::Dop, AddrMode::ZpX),
        0x15 => (OpeKind::Ora, AddrMode::ZpX),
        0x16 => (OpeKind::Asl, AddrMode::ZpX),
        0x17 => (OpeKind::Slo, AddrMode::ZpX),
        0x18 => (OpeKind::Clc, AddrMode::Impl),
        0x19 => (OpeKind::Ora, AddrMode::AbsY),
        0x1A => (OpeKind::Nop, AddrMode::Nop),
        0x1B => (OpeKind::Slo, AddrMode::AbsY),
        0x1C => (OpeKind::Top, AddrMode::AbsX),
        0x1D => (OpeKind::Ora, AddrMode::AbsX),
        0x1E => (OpeKind::Asl, AddrMode::AbsX),
        0x1F => (OpeKind::Slo, AddrMode::AbsX),
        0x20 => (OpeKind::Jsr, AddrMode::Abs),
        0x21 => (OpeKind::And, AddrMode::IndX),
        0x22 => (OpeKind::Kil, AddrMode::Impl),
        0x23 => (OpeKind::Rla, AddrMode::IndX),
        0x24 => (OpeKind::Bit, AddrMode::Zp),
        0x25 => (OpeKind::And, AddrMode::Zp),
        0x26 => (OpeKind::Rol, AddrMode::Zp),
        0x27 => (OpeKind::Rla, AddrMode::Zp),
        0x28 => (OpeKind::Plp, AddrMode::Impl),
        0x29 => (OpeKind::And, AddrMode::Imm),
        0x2A => (OpeKind::Rol, AddrMode::Acc),
        0x2B => (OpeKind::Aac, AddrMode::Imm),
        0x2C => (OpeKind::Bit, AddrMode::Abs),
        0x2D => (OpeKind::And, AddrMode::Abs),
        0x2E => (OpeKind::Rol, AddrMode::Abs),
        0x2F => (OpeKind::Rla, AddrMode::Abs),
        0x30 => (OpeKind::Bmi, AddrMode::Rel),
        0x31 => (OpeKind::And, AddrMode::IndY),
        0x32 => (OpeKind::Kil, AddrMode::Impl),
        0x33 => (OpeKind::Rla, AddrMode::IndY),
        0x34 => (OpeKind::Dop, AddrMode::ZpX),
        0x35 => (OpeKind::And, AddrMode::ZpX),
        0x36 => (OpeKind::Rol, AddrMode::ZpX),
        0x37 => (OpeKind::Rla, AddrMode::ZpX),
        0x38 => (OpeKind::Sec, AddrMode::Impl),
        0x39 => (OpeKind::And, AddrMode::AbsY),
        0x3A => (OpeKind::Nop, AddrMode::Nop),
        0x3B => (OpeKind::Rla, AddrMode::AbsY),
        0x3C => (OpeKind::Top, AddrMode::AbsX),
        0x3D => (OpeKind::And, AddrMode::AbsX),
        0x3E => (OpeKind::Rol, AddrMode::AbsX),
        0x3F => (OpeKind::Rla, AddrMode::AbsX),
        0x40 => (OpeKind::Rti, AddrMode::Impl),
        0x41 => (OpeKind::Eor, AddrMode::IndX),
        0x42 => (OpeKind::Kil, AddrMode::Impl),
        0x43 => (OpeKind::Sre, AddrMode::IndX),
        0x44 => (OpeKind::Dop, AddrMode::Zp),
        0x45 => (OpeKind::Eor, AddrMode::Zp),
        0x46 => (OpeKind::Lsr, AddrMode::Zp),
        0x47 => (OpeKind::Sre, AddrMode::Zp),
        0x48 => (OpeKind::Pha, AddrMode::Impl),
        0x49 => (OpeKind::Eor, AddrMode::Imm),
        0x4A => (OpeKind::Lsr, AddrMode::Acc),
        0x4B => (OpeKind::Asr, AddrMode::Imm),
        0x4C => (OpeKind::Jmp, AddrMode::Abs),
        0x4D => (OpeKind::Eor, AddrMode::Abs),
        0x4E => (OpeKind::Lsr, AddrMode::Abs),
        0x4F => (OpeKind::Sre, AddrMode::Abs),
        0x50 => (OpeKind::Bvc, AddrMode::Rel),
        0x51 => (OpeKind::Eor, AddrMode::IndY),
        0x52 => (OpeKind::Kil, AddrMode::Impl),
        0x53 => (OpeKind::Sre, AddrMode::IndY),
        0x54 => (OpeKind::Dop, AddrMode::ZpX),
        0x55 => (OpeKind::Eor, AddrMode::ZpX),
        0x56 => (OpeKind::Lsr, AddrMode::ZpX),
        0x57 => (OpeKind::Sre, AddrMode::ZpX),
        0x58 => (OpeKind::Cli, AddrMode::Impl),
        0x59 => (OpeKind::Eor, AddrMode::AbsY),
        0x5A => (OpeKind::Nop, AddrMode::Nop),
        0x5B => (OpeKind::Sre, AddrMode::AbsY),
        0x5C => (OpeKind::Top, AddrMode::AbsX),
        0x5D => (OpeKind::Eor, AddrMode::AbsX),
        0x5E => (OpeKind::Lsr, AddrMode::AbsX),
        0x5F => (OpeKind::Sre, AddrMode::AbsX),
        0x60 => (OpeKind::Rts, AddrMode::Impl),
        0x61 => (OpeKind::Adc, AddrMode::IndX),
        0x62 => (OpeKind::Kil, AddrMode::Impl),
        0x63 => (OpeKind::Rra, AddrMode::IndX),
        0x64 => (OpeKind::Dop, AddrMode::Zp),
        0x65 => (OpeKind::Adc, AddrMode::Zp),
        0x66 => (OpeKind::Ror, AddrMode::Zp),
        0x67 => (OpeKind::Rra, AddrMode::Zp),
        0x68 => (OpeKind::Pla, AddrMode::Impl),
        0x69 => (OpeKind::Adc, AddrMode::Imm),
        0x6A => (OpeKind::Ror, AddrMode::Acc),
        0x6B => (OpeKind::Arr, AddrMode::Imm),
        0x6C => (OpeKind::Jmp, AddrMode::Ind),
        0x6D => (OpeKind::Adc, AddrMode::Abs),
        0x6E => (OpeKind::Ror, AddrMode::Abs),
        0x6F => (OpeKind::Rra, AddrMode::Abs),
        0x70 => (OpeKind::Bvs, AddrMode::Rel),
        0x71 => (OpeKind::Adc, AddrMode::IndY),
        0x72 => (OpeKind::Kil, AddrMode::Impl),
        0x73 => (OpeKind::Rra, AddrMode::IndY),
        0x74 => (OpeKind::Dop, AddrMode::ZpX),
        0x75 => (OpeKind::Adc, AddrMode::ZpX),
        0x76 => (OpeKind::Ror, AddrMode::ZpX),
        0x77 => (OpeKind::Rra, AddrMode::ZpX),
        0x78 => (OpeKind::Sei, AddrMode::Impl),
        0x79 => (OpeKind::Adc, AddrMode::AbsY),
        0x7A => (OpeKind::Nop, AddrMode::Nop),
        0x7B => (OpeKind::Rra, AddrMode::AbsY),
        0x7C => (OpeKind::Top, AddrMode::AbsX),
        0x7D => (OpeKind::Adc, AddrMode::AbsX),
        0x7E => (OpeKind::Ror, AddrMode::AbsX),
        0x7F => (OpeKind::Rra, AddrMode::AbsX),
        0x80 => (OpeKind::Dop, AddrMode::Imm),
        0x81 => (OpeKind::Sta, AddrMode::IndX),
        0x82 => (OpeKind::Dop, AddrMode::Imm),
        0x83 => (OpeKind::Sax, AddrMode::IndX),
        0x84 => (OpeKind::Sty, AddrMode::Zp),
        0x85 => (OpeKind::Sta, AddrMode::Zp),
        0x86 => (OpeKind::Stx, AddrMode::Zp),
        0x87 => (OpeKind::Sax, AddrMode::Zp),
        0x88 => (OpeKind::Dey, AddrMode::Impl),
        0x89 => (OpeKind::Dop, AddrMode::Imm),
        0x8A => (OpeKind::Txa, AddrMode::Impl),
        0x8B => (OpeKind::Xaa, AddrMode::Imm),
        0x8C => (OpeKind::Sty, AddrMode::Abs),
        0x8D => (OpeKind::Sta, AddrMode::Abs),
        0x8E => (OpeKind::Stx, AddrMode::Abs),
        0x8F => (OpeKind::Sax, AddrMode::Abs),
        0x90 => (OpeKind::Bcc, AddrMode::Rel),
        0x91 => (OpeKind::Sta, AddrMode::IndY),
        0x92 => (OpeKind::Kil, AddrMode::Impl),
        0x93 => (OpeKind::Axa, AddrMode::ZpY),
        0x94 => (OpeKind::Sty, AddrMode::ZpX),
        0x95 => (OpeKind::Sta, AddrMode::ZpX),
        0x96 => (OpeKind::Stx, AddrMode::ZpY),
        0x97 => (OpeKind::Sax, AddrMode::ZpY),
        0x98 => (OpeKind::Tya, AddrMode::Impl),
        0x99 => (OpeKind::Sta, AddrMode::AbsY),
        0x9A => (OpeKind::Txs, AddrMode::Impl),
        0x9B => (OpeKind::Xas, AddrMode::AbsY),
        0x9C => (OpeKind::Sya, AddrMode::AbsX),
        0x9D => (OpeKind::Sta, AddrMode::AbsX),
        0x9E => (OpeKind::Sxa, AddrMode::AbsX),
        0x9F => (OpeKind::Axa, AddrMode::AbsY),
        0xA0 => (OpeKind::Ldy, AddrMode::Imm),
        0xA1 => (OpeKind::Lda, AddrMode::IndX),
        0xA2 => (OpeKind::Ldx, AddrMode::Imm),
        0xA3 => (OpeKind::Lax, AddrMode::IndX),
        0xA4 => (OpeKind::Ldy, AddrMode::Zp),
        0xA5 => (OpeKind::Lda, AddrMode::Zp),
        0xA6 => (OpeKind::Ldx, AddrMode::Zp),
        0xA7 => (OpeKind::Lax, AddrMode::Zp),
        0xA8 => (OpeKind::Tay, AddrMode::Impl),
        0xA9 => (OpeKind::Lda, AddrMode::Imm),
        0xAA => (OpeKind::Tax, AddrMode::Impl),
        0xAB => (OpeKind::Lxa, AddrMode::Imm),
        0xAC => (OpeKind::Ldy, AddrMode::Abs),
        0xAD => (OpeKind::Lda, AddrMode::Abs),
        0xAE => (OpeKind::Ldx, AddrMode::Abs),
        0xAF => (OpeKind::Lax, AddrMode::Abs),
        0xB0 => (OpeKind::Bcs, AddrMode::Rel),
        0xB1 => (OpeKind::Lda, AddrMode::IndY),
        0xB2 => (OpeKind::Kil, AddrMode::Impl),
        0xB3 => (OpeKind::Lax, AddrMode::IndY),
        0xB4 => (OpeKind::Ldy, AddrMode::ZpX),
        0xB5 => (OpeKind::Lda, AddrMode::ZpX),
        0xB6 => (OpeKind::Ldx, AddrMode::ZpY),
        0xB7 => (OpeKind::Lax, AddrMode::ZpY),
        0xB8 => (OpeKind::Clv, AddrMode::Impl),
        0xB9 => (OpeKind::Lda, AddrMode::AbsY),
        0xBA => (OpeKind::Tsx, AddrMode::Impl),
        0xBB => (OpeKind::Las, AddrMode::AbsY),
        0xBC => (OpeKind::Ldy, AddrMode::AbsX),
        0xBD => (OpeKind::Lda, AddrMode::AbsX),
        0xBE => (OpeKind::Ldx, AddrMode::AbsY),
        0xBF => (OpeKind::Lax, AddrMode::AbsY),
        0xC0 => (OpeKind::Cpy, AddrMode::Imm),
        0xC1 => (OpeKind::Cmp, AddrMode::IndX),
        0xC2 => (OpeKind::Dop, AddrMode::Imm),
        0xC3 => (OpeKind::Dcp, AddrMode::IndX),
        0xC4 => (OpeKind::Cpy, AddrMode::Zp),
        0xC5 => (OpeKind::Cmp, AddrMode::Zp),
        0xC6 => (OpeKind::Dec, AddrMode::Zp),
        0xC7 => (OpeKind::Dcp, AddrMode::Zp),
        0xC8 => (OpeKind::Iny, AddrMode::Impl),
        0xC9 => (OpeKind::Cmp, AddrMode::Imm),
        0xCA => (OpeKind::Dex, AddrMode::Impl),
        0xCB => (OpeKind::Axs, AddrMode::Imm),
        0xCC => (OpeKind::Cpy, AddrMode::Abs),
        0xCD => (OpeKind::Cmp, AddrMode::Abs),
        0xCE => (OpeKind::Dec, AddrMode::Abs),
        0xCF => (OpeKind::Dcp, AddrMode::Abs),
        0xD0 => (OpeKind::Bne, AddrMode::Rel),
        0xD1 => (OpeKind::Cmp, AddrMode::IndY),
        0xD2 => (OpeKind::Kil, AddrMode::Impl),
        0xD3 => (OpeKind::Dcp, AddrMode::IndY),
        0xD4 => (OpeKind::Dop, AddrMode::ZpX),
        0xD5 => (OpeKind::Cmp, AddrMode::ZpX),
        0xD6 => (OpeKind::Dec, AddrMode::ZpX),
        0xD7 => (OpeKind::Dcp, AddrMode::ZpX),
        0xD8 => (OpeKind::Cld, AddrMode::Impl),
        0xD9 => (OpeKind::Cmp, AddrMode::AbsY),
        0xDA => (OpeKind::Nop, AddrMode::Nop),
        0xDB => (OpeKind::Dcp, AddrMode::AbsY),
        0xDC => (OpeKind::Top, AddrMode::AbsX),
        0xDD => (OpeKind::Cmp, AddrMode::AbsX),
        0xDE => (OpeKind::Dec, AddrMode::AbsX),
        0xDF => (OpeKind::Dcp, AddrMode::AbsX),
        0xE0 => (OpeKind::Cpx, AddrMode::Imm),
        0xE1 => (OpeKind::Sbc, AddrMode::IndX),
        0xE2 => (OpeKind::Dop, AddrMode::Imm),
        0xE3 => (OpeKind::Isb, AddrMode::IndX),
        0xE4 => (OpeKind::Cpx, AddrMode::Zp),
        0xE5 => (OpeKind::Sbc, AddrMode::Zp),
        0xE6 => (OpeKind::Inc, AddrMode::Zp),
        0xE7 => (OpeKind::Isb, AddrMode::Zp),
        0xE8 => (OpeKind::Inx, AddrMode::Impl),
        0xE9 => (OpeKind::Sbc, AddrMode::Imm),
        0xEA => (OpeKind::Nop, AddrMode::Impl),
        0xEB => (OpeKind::Sbc, AddrMode::Imm),
        0xEC => (OpeKind::Cpx, AddrMode::Abs),
        0xED => (OpeKind::Sbc, AddrMode::Abs),
        0xEE => (OpeKind::Inc, AddrMode::Abs),
        0xEF => (OpeKind::Isb, AddrMode::Abs),
        0xF0 => (OpeKind::Beq, AddrMode::Rel),
        0xF1 => (OpeKind::Sbc, AddrMode::IndY),
        0xF2 => (OpeKind::Kil, AddrMode::Impl),
        0xF3 => (OpeKind::Isb, AddrMode::IndY),
        0xF4 => (OpeKind::Dop, AddrMode::ZpX),
        0xF5 => (OpeKind::Sbc, AddrMode::ZpX),
        0xF6 => (OpeKind::Inc, AddrMode::ZpX),
        0xF7 => (OpeKind::Isb, AddrMode::ZpX),
        0xF8 => (OpeKind::Sed, AddrMode::Impl),
        0xF9 => (OpeKind::Sbc, AddrMode::AbsY),
        0xFA => (OpeKind::Nop, AddrMode::Nop),
        0xFB => (OpeKind::Isb, AddrMode::AbsY),
        0xFC => (OpeKind::Top, AddrMode::AbsX),
        0xFD => (OpeKind::Sbc, AddrMode::AbsX),
        0xFE => (OpeKind::Inc, AddrMode::AbsX),
        0xFF => (OpeKind::Isb, AddrMode::AbsX),
    };
    Operator { ope_kind, addr_mode, cycle: cycle_table()[code as int] }
}

/// Looks an opcode up in the instruction table.
pub fn decode_operator(code: u8) -> (op: Operator)
    ensures
        op == spec_operator(code),
{
    let cycles: [u8; 256] = [
        7, 6, 2, 8, 3, 3, 5, 5, 3, 2, 2, 2, 4, 4, 6, 6,
        2, 5, 2, 8, 4, 4, 6, 6, 2, 4, 2, 7, 4, 4, 6, 7,
        6, 6, 2, 8, 3, 3, 5, 5, 4, 2, 2, 2, 4, 4, 6, 6,
        2, 5, 2, 8, 4, 4, 6, 6, 2, 4, 2, 7, 4, 4, 6, 7,
        6, 6, 2, 8, 3, 3, 5, 5, 3, 2, 2, 2, 3, 4, 6, 6,
        2, 5, 2, 8, 4, 4, 6, 6, 2, 4, 2, 7, 4, 4, 6, 7,
        6, 6, 2, 8, 3, 3, 5, 5, 4, 2, 2, 2, 5, 4, 6, 6,
        2, 5, 2, 8, 4, 4, 6, 6, 2, 4, 2, 7, 4, 4, 6, 7,
        2, 6, 6, 6, 3, 3, 3, 3, 2, 2, 2, 2, 4, 4, 4, 4,
        2, 5, 2, 6, 4, 4, 4, 4, 2, 5, 2, 5, 5, 4, 5, 5,
        2, 6, 2, 6, 3, 3, 3, 3, 2, 2, 2, 2, 4, 4, 4, 4,
        2, 5, 2, 5, 4, 4, 4, 4, 2, 4, 2, 4, 4, 4, 4, 4,
        2, 6, 2, 8, 3, 3, 5, 5, 2, 2, 2, 2, 4, 4, 6, 6,
        2, 5, 2, 8, 4, 4, 6, 6, 2, 4, 2, 7, 4, 4, 7, 7,
        2, 6, 3, 8, 3, 3, 5, 5, 2, 2, 2, 2, 4, 4, 6, 6,
        2, 5, 2, 8, 4, 4, 6, 6, 2, 4, 2, 7, 4, 4, 7, 7,
    ];
    assert(cycles@ =~= cycle_table());
    let (ope_kind, addr_mode) = match code {
        0x00 => (OpeKind::Brk, AddrMode::Impl),
        0x01 => (OpeKind::Ora, AddrMode::IndX),
        0x02 => (OpeKind::Kil, AddrMode::Impl),
        0x03 => (OpeKind::Slo, AddrMode::IndX),
        0x04 => (OpeKind::Dop, AddrMode::Zp),
        0x05 => (OpeKind::Ora, AddrMode::Zp),
        0x06 => (OpeKind::Asl, AddrMode::Zp),
        0x07 => (OpeKind::Slo, AddrMode::Zp),
        0x08 => (OpeKind::Php, AddrMode::Impl),
        0x09 => (OpeKind::Ora, AddrMode::Imm),
        0x0A => (OpeKind::Asl, AddrMode::Acc),
        0x0B => (OpeKind::Aac, AddrMode::Imm),
        0x0C => (OpeKind::Top, AddrMode::Abs),
        0x0D => (OpeKind::Ora, AddrMode::Abs),
        0x0E => (OpeKind::Asl, AddrMode::Abs),
        0x0F => (OpeKind::Slo, AddrMode::Abs),
        0x10 => (OpeKind::Bpl, AddrMode::Rel),
        0x11 => (OpeKind::Ora, AddrMode::IndY),
        0x12 => (OpeKind::Kil, AddrMode::Impl),
        0x13 => (OpeKind::Slo, AddrMode::IndY),
        0x14 => (OpeKind::Dop, AddrMode::ZpX),
        0x15 => (OpeKind::Ora, AddrMode::ZpX),
        0x16 => (OpeKind::Asl, AddrMode::ZpX),
        0x17 => (OpeKind::Slo, AddrMode::ZpX),
        0x18 => (OpeKind::Clc, AddrMode::Impl),
        0x19 => (OpeKind::Ora, AddrMode::AbsY),
        0x1A => (OpeKind::Nop, AddrMode::Nop),
        0x1B => (OpeKind::Slo, AddrMode::AbsY),
        0x1C => (OpeKind::Top, AddrMode::AbsX),
        0x1D => (OpeKind::Ora, AddrMode::AbsX),
        0x1E => (OpeKind::Asl, AddrMode::AbsX),
        0x1F => (OpeKind::Slo, AddrMode::AbsX),
        0x20 => (OpeKind::Jsr, AddrMode::Abs),
        0x21 => (OpeKind::And, AddrMode::IndX),
        0x22 => (OpeKind::Kil, AddrMode::Impl),
        0x23 => (OpeKind::Rla, AddrMode::IndX),
        0x24 => (OpeKind::Bit, AddrMode::Zp),
        0x25 => (OpeKind::And, AddrMode::Zp),
        0x26 => (OpeKind::Rol, AddrMode::Zp),
        0x27 => (OpeKind::Rla, AddrMode::Zp),
        0x28 => (OpeKind::Plp, AddrMode::Impl),
        0x29 => (OpeKind::And, AddrMode::Imm),
        0x2A => (OpeKind::Rol, AddrMode::Acc),
        0x2B => (OpeKind::Aac, AddrMode::Imm),
        0x2C => (OpeKind::Bit, AddrMode::Abs),
        0x2D => (OpeKind::And, AddrMode::Abs),
        0x2E => (OpeKind::Rol, AddrMode::Abs),
        0x2F => (OpeKind::Rla, AddrMode::Abs),
        0x30 => (OpeKind::Bmi, AddrMode::Rel),
        0x31 => (OpeKind::And, AddrMode::IndY),
        0x32 => (OpeKind::Kil, AddrMode::Impl),
        0x33 => (OpeKind::Rla, AddrMode::IndY),
        0x34 => (OpeKind::Dop, AddrMode::ZpX),
        0x35 => (OpeKind::And, AddrMode::ZpX),
        0x36 => (OpeKind::Rol, AddrMode::ZpX),
        0x37 => (OpeKind::Rla, AddrMode::ZpX),
        0x38 => (OpeKind::Sec, AddrMode::Impl),
        0x39 => (OpeKind::And, AddrMode::AbsY),
        0x3A => (OpeKind::Nop, AddrMode::Nop),
        0x3B => (OpeKind::Rla, AddrMode::AbsY),
        0x3C => (OpeKind::Top, AddrMode::AbsX),
        0x3D => (OpeKind::And, AddrMode::AbsX),
        0x3E => (OpeKind::Rol, AddrMode::AbsX),
        0x3F => (OpeKind::Rla, AddrMode::AbsX),
        0x40 => (OpeKind::Rti, AddrMode::Impl),
        0x41 => (OpeKind::Eor, AddrMode::IndX),
        0x42 => (OpeKind::Kil, AddrMode::Impl),
        0x43 => (OpeKind::Sre, AddrMode::IndX),
        0x44 => (OpeKind::Dop, AddrMode::Zp),
        0x45 => (OpeKind::Eor, AddrMode::Zp),
        0x46 => (OpeKind::Lsr, AddrMode::Zp),
        0x47 => (OpeKind::Sre, AddrMode::Zp),
        0x48 => (OpeKind::Pha, AddrMode::Impl),
        0x49 => (OpeKind::Eor, AddrMode::Imm),
        0x4A => (OpeKind::Lsr, AddrMode::Acc),
        0x4B => (OpeKind::Asr, AddrMode::Imm),
        0x4C => (OpeKind::Jmp, AddrMode::Abs),
        0x4D => (OpeKind::Eor, AddrMode::Abs),
        0x4E => (OpeKind::Lsr, AddrMode::Abs),
        0x4F => (OpeKind::Sre, AddrMode::Abs),
        0x50 => (OpeKind::Bvc, AddrMode::Rel),
        0x51 => (OpeKind::Eor, AddrMode::IndY),
        0x52 => (OpeKind::Kil, AddrMode::Impl),
        0x53 => (OpeKind::Sre, AddrMode::IndY),
        0x54 => (OpeKind::Dop, AddrMode::ZpX),
        0x55 => (OpeKind::Eor, AddrMode::ZpX),
        0x56 => (OpeKind::Lsr, AddrMode::ZpX),
        0x57 => (OpeKind::Sre, AddrMode::ZpX),
        0x58 => (OpeKind::Cli, AddrMode::Impl),
        0x59 => (OpeKind::Eor, AddrMode::AbsY),
        0x5A => (OpeKind::Nop, AddrMode::Nop),
        0x5B => (OpeKind::Sre, AddrMode::AbsY),
        0x5C => (OpeKind::Top, AddrMode::AbsX),
        0x5D => (OpeKind::Eor, AddrMode::AbsX),
        0x5E => (OpeKind::Lsr, AddrMode::AbsX),
        0x5F => (OpeKind::Sre, AddrMode::AbsX),
        0x60 => (OpeKind::Rts, AddrMode::Impl),
        0x61 => (OpeKind::Adc, AddrMode::IndX),
        0x62 => (OpeKind::Kil, AddrMode::Impl),
        0x63 => (OpeKind::Rra, AddrMode::IndX),
        0x64 => (OpeKind::Dop, AddrMode::Zp),
        0x65 => (OpeKind::Adc, AddrMode::Zp),
        0x66 => (OpeKind::Ror, AddrMode::Zp),
        0x67 => (OpeKind::Rra, AddrMode::Zp),
        0x68 => (OpeKind::Pla, AddrMode::Impl),
        0x69 => (OpeKind::Adc, AddrMode::Imm),
        0x6A => (OpeKind::Ror, AddrMode::Acc),
        0x6B => (OpeKind::Arr, AddrMode::Imm),
        0x6C => (OpeKind::Jmp, AddrMode::Ind),
        0x6D => (OpeKind::Adc, AddrMode::Abs),
        0x6E => (OpeKind::Ror, AddrMode::Abs),
        0x6F => (OpeKind::Rra, AddrMode::Abs),
        0x70 => (OpeKind::Bvs, AddrMode::Rel),
        0x71 => (OpeKind::Adc, AddrMode::IndY),
        0x72 => (OpeKind::Kil, AddrMode::Impl),
        0x73 => (OpeKind::Rra, AddrMode::IndY),
        0x74 => (OpeKind::Dop, AddrMode::ZpX),
        0x75 => (OpeKind::Adc, AddrMode::ZpX),
        0x76 => (OpeKind::Ror, AddrMode::ZpX),
        0x77 => (OpeKind::Rra, AddrMode::ZpX),
        0x78 => (OpeKind::Sei, AddrMode::Impl),
        0x79 => (OpeKind::Adc, AddrMode::AbsY),
        0x7A => (OpeKind::Nop, AddrMode::Nop),
        0x7B => (OpeKind::Rra, AddrMode::AbsY),
        0x7C => (OpeKind::Top, AddrMode::AbsX),
        0x7D => (OpeKind::Adc, AddrMode::AbsX),
        0x7E => (OpeKind::Ror, AddrMode::AbsX),
        0x7F => (OpeKind::Rra, AddrMode::AbsX),
        0x80 => (OpeKind::Dop, AddrMode::Imm),
        0x81 => (OpeKind::Sta, AddrMode::IndX),
        0x82 => (OpeKind::Dop, AddrMode::Imm),
        0x83 => (OpeKind::Sax, AddrMode::IndX),
        0x84 => (OpeKind::Sty, AddrMode::Zp),
        0x85 => (OpeKind::Sta, AddrMode::Zp),
        0x86 => (OpeKind::Stx, AddrMode::Zp),
        0x87 => (OpeKind::Sax, AddrMode::Zp),
        0x88 => (OpeKind::Dey, AddrMode::Impl),
        0x89 => (OpeKind::Dop, AddrMode::Imm),
        0x8A => (OpeKind::Txa, AddrMode::Impl),
        0x8B => (OpeKind::Xaa, AddrMode::Imm),
        0x8C => (OpeKind::Sty, AddrMode::Abs),
        0x8D => (OpeKind::Sta, AddrMode::Abs),
        0x8E => (OpeKind::Stx, AddrMode::Abs),
        0x8F => (OpeKind::Sax, AddrMode::Abs),
        0x90 => (OpeKind::Bcc, AddrMode::Rel),
        0x91 => (OpeKind::Sta, AddrMode::IndY),
        0x92 => (OpeKind::Kil, AddrMode::Impl),
        0x93 => (OpeKind::Axa, AddrMode::ZpY),
        0x94 => (OpeKind::Sty, AddrMode::ZpX),
        0x95 => (OpeKind::Sta, AddrMode::ZpX),
        0x96 => (OpeKind::Stx, AddrMode::ZpY),
        0x97 => (OpeKind::Sax, AddrMode::ZpY),
        0x98 => (OpeKind::Tya, AddrMode::Impl),
        0x99 => (OpeKind::Sta, AddrMode::AbsY),
        0x9A => (OpeKind::Txs, AddrMode::Impl),
        0x9B => (OpeKind::Xas, AddrMode::AbsY),
        0x9C => (OpeKind::Sya, AddrMode::AbsX),
        0x9D => (OpeKind::Sta, AddrMode::AbsX),
        0x9E => (OpeKind::Sxa, AddrMode::AbsX),
        0x9F => (OpeKind::Axa, AddrMode::AbsY),
        0xA0 => (OpeKind::Ldy, AddrMode::Imm),
        0xA1 => (OpeKind::Lda, AddrMode::IndX),
        0xA2 => (OpeKind::Ldx, AddrMode::Imm),
        0xA3 => (OpeKind::Lax, AddrMode::IndX),
        0xA4 => (OpeKind::Ldy, AddrMode::Zp),
        0xA5 => (OpeKind::Lda, AddrMode::Zp),
        0xA6 => (OpeKind::Ldx, AddrMode::Zp),
        0xA7 => (OpeKind::Lax, AddrMode::Zp),
        0xA8 => (OpeKind::Tay, AddrMode::Impl),
        0xA9 => (OpeKind::Lda, AddrMode::Imm),
        0xAA => (OpeKind::Tax, AddrMode::Impl),
        0xAB => (OpeKind::Lxa, AddrMode::Imm),
        0xAC => (OpeKind::Ldy, AddrMode::Abs),
        0xAD => (OpeKind::Lda, AddrMode::Abs),
        0xAE => (OpeKind::Ldx, AddrMode::Abs),
        0xAF => (OpeKind::Lax, AddrMode::Abs),
        0xB0 => (OpeKind::Bcs, AddrMode::Rel),
        0xB1 => (OpeKind::Lda, AddrMode::IndY),
        0xB2 => (OpeKind::Kil, AddrMode::Impl),
        0xB3 => (OpeKind::Lax, AddrMode::IndY),
        0xB4 => (OpeKind::Ldy, AddrMode::ZpX),
        0xB5 => (OpeKind::Lda, AddrMode::ZpX),
        0xB6 => (OpeKind::Ldx, AddrMode::ZpY),
        0xB7 => (OpeKind::Lax, AddrMode::ZpY),
        0xB8 => (OpeKind::Clv, AddrMode::Impl),
        0xB9 => (OpeKind::Lda, AddrMode::AbsY),
        0xBA => (OpeKind::Tsx, AddrMode::Impl),
        0xBB => (OpeKind::Las, AddrMode::AbsY),
        0xBC => (OpeKind::Ldy, AddrMode::AbsX),
        0xBD => (OpeKind::Lda, AddrMode::AbsX),
        0xBE => (OpeKind::Ldx, AddrMode::AbsY),
        0xBF => (OpeKind::Lax, AddrMode::AbsY),
        0xC0 => (OpeKind::Cpy, AddrMode::Imm),
        0xC1 => (OpeKind::Cmp, AddrMode::IndX),
        0xC2 => (OpeKind::Dop, AddrMode::Imm),
        0xC3 => (OpeKind::Dcp, AddrMode::IndX),
        0xC4 => (OpeKind::Cpy, AddrMode::Zp),
        0xC5 => (OpeKind::Cmp, AddrMode::Zp),
        0xC6 => (OpeKind::Dec, AddrMode::Zp),
        0xC7 => (OpeKind::Dcp, AddrMode::Zp),
        0xC8 => (OpeKind::Iny, AddrMode::Impl),
        0xC9 => (OpeKind::Cmp, AddrMode::Imm),
        0xCA => (OpeKind::Dex, AddrMode::Impl),
        0xCB => (OpeKind::Axs, AddrMode::Imm),
        0xCC => (OpeKind::Cpy, AddrMode::Abs),
        0xCD => (OpeKind::Cmp, AddrMode::Abs),
        0xCE => (OpeKind::Dec, AddrMode::Abs),
        0xCF => (OpeKind::Dcp, AddrMode::Abs),
        0xD0 => (OpeKind::Bne, AddrMode::Rel),
        0xD1 => (OpeKind::Cmp, AddrMode::IndY),
        0xD2 => (OpeKind::Kil, AddrMode::Impl),
        0xD3 => (OpeKind::Dcp, AddrMode::IndY),
        0xD4 => (OpeKind::Dop, AddrMode::ZpX),
        0xD5 => (OpeKind::Cmp, AddrMode::ZpX),
        0xD6 => (OpeKind::Dec, AddrMode::ZpX),
        0xD7 => (OpeKind::Dcp, AddrMode::ZpX),
        0xD8 => (OpeKind::Cld, AddrMode::Impl),
        0xD9 => (OpeKind::Cmp, AddrMode::AbsY),
        0xDA => (OpeKind::Nop, AddrMode::Nop),
        0xDB => (OpeKind::Dcp, AddrMode::AbsY),
        0xDC => (OpeKind::Top, AddrMode::AbsX),
        0xDD => (OpeKind::Cmp, AddrMode::AbsX),
        0xDE => (OpeKind::Dec, AddrMode::AbsX),
        0xDF => (OpeKind::Dcp, AddrMode::AbsX),
        0xE0 => (OpeKind::Cpx, AddrMode::Imm),
        0xE1 => (OpeKind::Sbc, AddrMode::IndX),
        0xE2 => (OpeKind::Dop, AddrMode::Imm),
        0xE3 => (OpeKind::Isb, AddrMode::IndX),
        0xE4 => (OpeKind::Cpx, AddrMode::Zp),
        0xE5 => (OpeKind::Sbc, AddrMode::Zp),
        0xE6 => (OpeKind::Inc, AddrMode::Zp),
        0xE7 => (OpeKind::Isb, AddrMode::Zp),
        0xE8 => (OpeKind::Inx, AddrMode::Impl),
        0xE9 => (OpeKind::Sbc, AddrMode::Imm),
        0xEA => (OpeKind::Nop, AddrMode::Impl),
        0xEB => (OpeKind::Sbc, AddrMode::Imm),
        0xEC => (OpeKind::Cpx, AddrMode::Abs),
        0xED => (OpeKind::Sbc, AddrMode::Abs),
        0xEE => (OpeKind::Inc, AddrMode::Abs),
        0xEF => (OpeKind::Isb, AddrMode::Abs),
        0xF0 => (OpeKind::Beq, AddrMode::Rel),
        0xF1 => (OpeKind::Sbc, AddrMode::IndY),
        0xF2 => (OpeKind::Kil, AddrMode::Impl),
        0xF3 => (OpeKind::Isb, AddrMode::IndY),
        0xF4 => (OpeKind::Dop, AddrMode::ZpX),
        0xF5 => (OpeKind::Sbc, AddrMode::ZpX),
        0xF6 => (OpeKind::Inc, AddrMode::ZpX),
        0xF7 => (OpeKind::Isb, AddrMode::ZpX),
        0xF8 => (OpeKind::Sed, AddrMode::Impl),
        0xF9 => (OpeKind::Sbc, AddrMode::AbsY),
        0xFA => (OpeKind::Nop, AddrMode::Nop),
        0xFB => (OpeKind::Isb, AddrMode::AbsY),
        0xFC => (OpeKind::Top, AddrMode::AbsX),
        0xFD => (OpeKind::Sbc, AddrMode::AbsX),
        0xFE => (OpeKind::Inc, AddrMode::AbsX),
        0xFF => (OpeKind::Isb, AddrMode::AbsX),
    };
    Operator { ope_kind, addr_mode, cycle: cycles[code as usize] }
}

} // verus!
