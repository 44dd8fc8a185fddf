use vstd::prelude::*;

use crate::bus::cpu_map::{cpu_map_read, cpu_map_readable, same_page_next};
use crate::bus::bus_readable;
use crate::cpu::operator::AddrMode;
use crate::cpu::{
    can_count, counted, fetch_value, fetched, lh_fetch_ok, lh_fetched, lh_value, with_carry,
    with_pc, with_x, with_y, CpuState,
};
use crate::util::word_of;

verus! {

/// The state once the program counter has moved past the opcode.
pub open spec fn past_opcode(s: CpuState) -> CpuState {
    with_pc(s, (s.regs.pc + 1) as u16)
}

/// How many operand bytes follow the opcode in each addressing mode.
pub open spec fn operand_len(m: AddrMode) -> int {
    match m {
        AddrMode::Impl | AddrMode::Acc | AddrMode::Nop => 0,
        AddrMode::Imm | AddrMode::Zp | AddrMode::ZpX | AddrMode::ZpY | AddrMode::Rel
        | AddrMode::IndX | AddrMode::IndY => 1,
        AddrMode::Abs | AddrMode::AbsX | AddrMode::AbsY | AddrMode::Ind => 2,
    }
}

/// The 16-bit pointer stored at the zero-page address `z`: its low byte at
/// `z`, its high byte at the next address, 0x0100 for `z == 0xFF`.
pub open spec fn zp_word(s: CpuState, z: u8) -> u16 {
    word_of(s.bus.cpu.mem[z as int], s.bus.cpu.mem[z as int + 1])
}

/// `base` plus an index register, wrapping at 16 bits.
pub open spec fn indexed(base: u16, i: u8) -> u16 {
    ((base + i) % 0x10000) as u16
}

/// The page-crossing test of the indexed modes: `t` has a bit among
/// 0x0F00 that `base` lacks.
pub open spec fn page_crossed(base: u16, t: u16) -> bool {
    ((base & 0xF00) | (t & 0xF00)) != (base & 0xF00)
}

/// One more cycle when `b` holds.
pub open spec fn counted_if(s: CpuState, b: bool) -> CpuState {
    if b {
        counted(s, 1)
    } else {
        s
    }
}

/// The address right after a relative branch operand.
pub open spec fn rel_base(s: CpuState) -> int {
    s.regs.pc + 1
}

/// The branch target: the base plus the operand read as a signed byte.
pub open spec fn rel_target(s: CpuState) -> int {
    let h = fetch_value(s);
    if h < 0x80 {
        rel_base(s) + h
    } else {
        rel_base(s) + h - 256
    }
}

/// The operand pointer of the indirect jump.
pub open spec fn ind_pointer(s: CpuState) -> u16 {
    lh_value(s)
}

/// Each addressing mode can find its operand from `s`, the state with the
/// program counter on the first operand byte.
pub open spec fn mode_ok(s: CpuState, m: AddrMode) -> bool {
    match m {
        AddrMode::Impl | AddrMode::Acc | AddrMode::Nop => true,
        AddrMode::Imm | AddrMode::Zp | AddrMode::ZpX | AddrMode::ZpY | AddrMode::IndX => {
            bus_readable(s.bus, s.regs.pc)
        },
        AddrMode::Rel => {
            &&& bus_readable(s.bus, s.regs.pc)
            &&& rel_base(s) <= u16::MAX
            &&& (fetch_value(s) < 0x80 ==> rel_base(s) + fetch_value(s) <= u16::MAX)
            &&& (fetch_value(s) >= 0x80 ==> rel_base(s) + fetch_value(s) <= u16::MAX
                && rel_target(s) >= 0)
        },
        AddrMode::IndY => {
            let base = zp_word(s, fetch_value(s));
            &&& bus_readable(s.bus, s.regs.pc)
            &&& (page_crossed(base, indexed(base, s.regs.y)) ==> can_count(fetched(s), 1))
        },
        AddrMode::Abs => lh_fetch_ok(s),
        AddrMode::AbsX => {
            &&& lh_fetch_ok(s)
            &&& (page_crossed(lh_value(s), indexed(lh_value(s), s.regs.x)) ==> can_count(
                lh_fetched(s),
                1,
            ))
        },
        AddrMode::AbsY => {
            &&& lh_fetch_ok(s)
            &&& (page_crossed(lh_value(s), indexed(lh_value(s), s.regs.y)) ==> can_count(
                lh_fetched(s),
                1,
            ))
        },
        AddrMode::Ind => {
            &&& lh_fetch_ok(s)
            &&& cpu_map_readable(ind_pointer(s))
            &&& cpu_map_readable(same_page_next(ind_pointer(s)))
        },
    }
}

/// The operand address each mode finds from `s`.
pub open spec fn mode_addr(s: CpuState, m: AddrMode) -> u16 {
    match m {
        AddrMode::Impl | AddrMode::Nop => 0,
        AddrMode::Acc => s.regs.a as u16,
        AddrMode::Imm | AddrMode::Zp => fetch_value(s) as u16,
        AddrMode::ZpX => ((fetch_value(s) + s.regs.x) % 256) as u16,
        AddrMode::ZpY => ((fetch_value(s) + s.regs.y) % 256) as u16,
        AddrMode::Abs => lh_value(s),
        AddrMode::AbsX => indexed(lh_value(s), s.regs.x),
        AddrMode::AbsY => indexed(lh_value(s), s.regs.y),
        AddrMode::Rel => rel_target(s) as u16,
        AddrMode::IndX => zp_word(s, ((fetch_value(s) + s.regs.x) % 256) as u8),
        AddrMode::IndY => indexed(zp_word(s, fetch_value(s)), s.regs.y),
        AddrMode::Ind => {
            let t = lh_fetched(s);
            word_of(
                cpu_map_read(t.bus.cpu, t.bus.regs, ind_pointer(s)),
                cpu_map_read(t.bus.cpu, t.bus.regs, same_page_next(ind_pointer(s))),
            )
        },
    }
}

/// The state after each mode found its operand from `s`: the operand bytes
/// were read, a page crossing costs a cycle, and an absolute indexed address
/// that wraps past 0xFFFF sets the carry.
pub open spec fn mode_state(s: CpuState, m: AddrMode) -> CpuState {
    match m {
        AddrMode::Impl | AddrMode::Acc | AddrMode::Nop => s,
        AddrMode::Imm | AddrMode::Zp | AddrMode::ZpX | AddrMode::ZpY | AddrMode::Rel
        | AddrMode::IndX => fetched(s),
        AddrMode::IndY => {
            let base = zp_word(s, fetch_value(s));
            counted_if(fetched(s), page_crossed(base, indexed(base, s.regs.y)))
        },
        AddrMode::Abs | AddrMode::Ind => lh_fetched(s),
        AddrMode::AbsX => {
            let base = lh_value(s);
            let t = counted_if(lh_fetched(s), page_crossed(base, indexed(base, s.regs.x)));
            if base + s.regs.x > u16::MAX {
                with_carry(t, true)
            } else {
                t
            }
        },
        AddrMode::AbsY => {
            let base = lh_value(s);
            let t = counted_if(lh_fetched(s), page_crossed(base, indexed(base, s.regs.y)));
            if base + s.regs.y > u16::MAX {
                with_carry(t, true)
            } else {
                t
            }
        },
    }
}

/// The whole addressing step can run from `s`, the state with the program
/// counter on the opcode: the program counter moves past the opcode and the
/// operand without overflowing, and the mode finds its operand.
pub open spec fn addressing_ok(s: CpuState, m: AddrMode) -> bool {
    &&& s.regs.pc + 1 + operand_len(m) <= u16::MAX
    &&& mode_ok(past_opcode(s), m)
}

/// The operand address of the addressing step from `s`.
pub open spec fn addressed_addr(s: CpuState, m: AddrMode) -> u16 {
    mode_addr(past_opcode(s), m)
}

/// The state after the addressing step from `s`: the program counter is on
/// the next instruction.
pub open spec fn addressed(s: CpuState, m: AddrMode) -> CpuState {
    with_pc(mode_state(past_opcode(s), m), (s.regs.pc + 1 + operand_len(m)) as u16)
}

/// Finding the operand leaves the program counter where it is.
pub proof fn lemma_mode_state_keeps_pc(s: CpuState, m: AddrMode)
    ensures
        mode_state(s, m).regs.pc == s.regs.pc,
{
}

/// The zero-page,X address is the operand byte plus the X register, wrapped
/// to the zero page; the Y register plays no part in it.
pub proof fn lemma_zero_page_x(s: CpuState, y: u8)
    ensures
        mode_addr(s, AddrMode::ZpX) as int == (fetch_value(s) as int + s.regs.x as int) % 256,
        mode_addr(with_y(s, y), AddrMode::ZpX) == mode_addr(s, AddrMode::ZpX),
{
}

/// The zero-page,Y address is the operand byte plus the Y register, wrapped
/// to the zero page; the X register plays no part in it.
pub proof fn lemma_zero_page_y(s: CpuState, x: u8)
    ensures
        mode_addr(s, AddrMode::ZpY) as int == (fetch_value(s) as int + s.regs.y as int) % 256,
        mode_addr(with_x(s, x), AddrMode::ZpY) == mode_addr(s, AddrMode::ZpY),
{
}

} // verus!
