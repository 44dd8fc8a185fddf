use vstd::prelude::*;

use crate::bus::cpu_map::cpu_map_read;
use crate::bus::{bus_after_read, bus_readable, bus_writable, bus_written};
use crate::cpu::addressing::{addressed, addressed_addr, addressing_ok};
use crate::cpu::operator::{AddrMode, OpeKind, Operator};
use crate::cpu::register::{flags_from_byte, flags_to_byte, lemma_status_read_then_load, PFlags};
use crate::cpu::{
    after_read, can_count, counted, fetch_value, fetched, pull_value, pulled, pushed, read_value, with_a, with_carry,
    with_flags, with_nz, with_overflow, with_pc, with_s, with_x, with_y, write_ok, written,
    CpuState,
};
use crate::util::word_of;

verus! {

/// The operand of an instruction that takes either an immediate byte or a
/// byte from memory: with the immediate mode the address is the byte itself.
pub open spec fn operand(s: CpuState, addr: u16, m: AddrMode) -> u8 {
    if m == AddrMode::Imm {
        addr as u8
    } else {
        read_value(s, addr)
    }
}

/// The state after the operand was taken: a read from memory may change
/// the bus.
pub open spec fn operand_read(s: CpuState, addr: u16, m: AddrMode) -> CpuState {
    if m == AddrMode::Imm {
        s
    } else {
        after_read(s, addr)
    }
}

/// The operand can be taken.
pub open spec fn operand_ok(s: CpuState, addr: u16, m: AddrMode) -> bool {
    m == AddrMode::Imm || bus_readable(s.bus, addr)
}

/// `a + m + carry`, the sum that ADC computes.
pub open spec fn adc_sum(a: u8, m: u8, c: bool) -> int {
    a + m + (if c {
        1int
    } else {
        0int
    })
}

/// The signed-overflow test of ADC: the result's sign differs from the
/// signs of both operands.
pub open spec fn adc_overflow(a: u8, m: u8, r: u8) -> bool {
    (r >= 0x80) != (a >= 0x80) && (r >= 0x80) != (m >= 0x80)
}

/// The state after `m` was added to the accumulator with carry: the
/// accumulator holds the sum modulo 256, the carry whether it passed 255,
/// and the overflow the signed test.
pub open spec fn added(s: CpuState, m: u8) -> CpuState {
    let a = s.regs.a;
    let sum = adc_sum(a, m, s.regs.p.carry);
    let r = (sum % 256) as u8;
    with_nz(with_a(with_overflow(with_carry(s, sum > 255), adc_overflow(a, m, r)), r), r)
}

/// `a - m - (1 - carry)`, the difference that SBC computes.
pub open spec fn sbc_diff(a: u8, m: u8, c: bool) -> int {
    a - m - (if c {
        0int
    } else {
        1int
    })
}

/// The state after `m` was subtracted from the accumulator with borrow:
/// the accumulator holds the difference modulo 256 and the carry whether it
/// did not go below zero.  The overflow flag is set when the accumulator was
/// negative and the result is not.
pub open spec fn subtracted(s: CpuState, m: u8) -> CpuState {
    let a = s.regs.a;
    let d = sbc_diff(a, m, s.regs.p.carry);
    let r = (d % 256) as u8;
    with_nz(with_a(with_overflow(with_carry(s, d >= 0), a >= 0x80 && r < 0x80), r), r)
}

#[verifier::opaque]
pub open spec fn after_adc(s: CpuState, addr: u16, m: AddrMode) -> CpuState {
    added(operand_read(s, addr, m), operand(s, addr, m))
}

#[verifier::opaque]
pub open spec fn after_sbc(s: CpuState, addr: u16, m: AddrMode) -> CpuState {
    subtracted(operand_read(s, addr, m), operand(s, addr, m))
}

/// The state after a logic instruction left `r` in the accumulator.
pub open spec fn with_acc_result(s: CpuState, r: u8) -> CpuState {
    with_nz(with_a(s, r), r)
}

#[verifier::opaque]
pub open spec fn after_and(s: CpuState, addr: u16, m: AddrMode) -> CpuState {
    with_acc_result(operand_read(s, addr, m), s.regs.a & operand(s, addr, m))
}

#[verifier::opaque]
pub open spec fn after_ora(s: CpuState, addr: u16, m: AddrMode) -> CpuState {
    with_acc_result(operand_read(s, addr, m), s.regs.a | operand(s, addr, m))
}

#[verifier::opaque]
pub open spec fn after_eor(s: CpuState, addr: u16, m: AddrMode) -> CpuState {
    with_acc_result(operand_read(s, addr, m), s.regs.a ^ operand(s, addr, m))
}

/// A shift or rotate can run: on the accumulator always, on memory when the
/// byte can be read and then written back.
#[verifier::opaque]
pub open spec fn rmw_ok(s: CpuState, addr: u16, m: AddrMode) -> bool {
    m == AddrMode::Acc || (bus_readable(s.bus, addr) && bus_writable(
        bus_after_read(s.bus, addr),
        addr,
    ))
}

/// The byte a shift or rotate works on: with the accumulator mode the
/// address holds it, else it is read from memory.
pub open spec fn rmw_input(s: CpuState, addr: u16, m: AddrMode) -> u8 {
    if m == AddrMode::Acc {
        addr as u8
    } else {
        read_value(s, addr)
    }
}

/// The state after a shift or rotate produced `v` with carry `c`: the carry,
/// negative and zero flags are set, and `v` goes to the accumulator or is
/// stored back to memory.
pub open spec fn rmw_done(s: CpuState, addr: u16, m: AddrMode, v: u8, c: bool) -> CpuState {
    if m == AddrMode::Acc {
        with_a(with_nz(with_carry(s, c), v), v)
    } else {
        let s1 = with_nz(with_carry(after_read(s, addr), c), v);
        CpuState { bus: bus_written(s1.bus, addr, v), ..s1 }
    }
}

/// The carry as the bit that a rotate moves in.
pub open spec fn carry_bit(c: bool) -> u8 {
    if c {
        1
    } else {
        0
    }
}

#[verifier::opaque]
pub open spec fn after_asl(s: CpuState, addr: u16, m: AddrMode) -> CpuState {
    let d = rmw_input(s, addr, m);
    rmw_done(s, addr, m, d << 1u8, d >= 0x80)
}

#[verifier::opaque]
pub open spec fn after_lsr(s: CpuState, addr: u16, m: AddrMode) -> CpuState {
    let d = rmw_input(s, addr, m);
    rmw_done(s, addr, m, d >> 1u8, d % 2 == 1)
}

#[verifier::opaque]
pub open spec fn after_rol(s: CpuState, addr: u16, m: AddrMode) -> CpuState {
    let d = rmw_input(s, addr, m);
    rmw_done(s, addr, m, (d << 1u8) | carry_bit(s.regs.p.carry), d >= 0x80)
}

#[verifier::opaque]
pub open spec fn after_ror(s: CpuState, addr: u16, m: AddrMode) -> CpuState {
    let d = rmw_input(s, addr, m);
    rmw_done(s, addr, m, (d >> 1u8) | (carry_bit(s.regs.p.carry) << 7u8), d % 2 == 1)
}

/// A branch: when the condition holds it takes one more cycle and jumps.
#[verifier::opaque]
pub open spec fn after_branch(s: CpuState, addr: u16, cond: bool) -> CpuState {
    if cond {
        with_pc(counted(s, 1), addr)
    } else {
        s
    }
}

pub open spec fn branch_ok(s: CpuState, cond: bool) -> bool {
    cond ==> can_count(s, 1)
}

/// The condition of each branch instruction.
pub open spec fn branch_cond(s: CpuState, k: OpeKind) -> bool {
    let p = s.regs.p;
    match k {
        OpeKind::Bcc => !p.carry,
        OpeKind::Bcs => p.carry,
        OpeKind::Beq => p.zero,
        OpeKind::Bne => !p.zero,
        OpeKind::Bvc => !p.overflow,
        OpeKind::Bvs => p.overflow,
        OpeKind::Bpl => !p.negative,
        OpeKind::Bmi => p.negative,
        _ => false,
    }
}

/// BIT: zero from `a & m`, negative and overflow from bits 7 and 6 of `m`.
#[verifier::opaque]
pub open spec fn after_bit(s: CpuState, addr: u16) -> CpuState {
    let d = read_value(s, addr);
    let s1 = after_read(s, addr);
    with_flags(
        s1,
        PFlags {
            zero: d & s.regs.a == 0,
            negative: d >= 0x80,
            overflow: d & 0x40 != 0,
            ..s1.regs.p
        },
    )
}

/// A comparison of `r` with the operand: carry when `r` is not below it,
/// zero when equal, negative from bit 7 of the difference.
pub open spec fn compared(s: CpuState, r: u8, v: u8) -> CpuState {
    with_flags(
        s,
        PFlags { carry: r >= v, zero: r == v, negative: (r - v) % 256 >= 0x80, ..s.regs.p },
    )
}

#[verifier::opaque]
pub open spec fn after_cmp(s: CpuState, addr: u16, m: AddrMode) -> CpuState {
    compared(operand_read(s, addr, m), s.regs.a, operand(s, addr, m))
}

#[verifier::opaque]
pub open spec fn after_cpx(s: CpuState, addr: u16, m: AddrMode) -> CpuState {
    compared(operand_read(s, addr, m), s.regs.x, operand(s, addr, m))
}

#[verifier::opaque]
pub open spec fn after_cpy(s: CpuState, addr: u16, m: AddrMode) -> CpuState {
    compared(operand_read(s, addr, m), s.regs.y, operand(s, addr, m))
}

/// INC before the store: the byte was read and the overflow flag tells
/// whether it wrapped from 255.
pub open spec fn inc_read(s: CpuState, addr: u16) -> CpuState {
    with_overflow(after_read(s, addr), read_value(s, addr) == 255)
}

pub open spec fn inc_value(s: CpuState, addr: u16) -> u8 {
    ((read_value(s, addr) + 1) % 256) as u8
}

#[verifier::opaque]
pub open spec fn inc_ok(s: CpuState, addr: u16) -> bool {
    bus_readable(s.bus, addr) && write_ok(inc_read(s, addr), addr, inc_value(s, addr))
}

#[verifier::opaque]
pub open spec fn after_inc(s: CpuState, addr: u16) -> CpuState {
    let v = inc_value(s, addr);
    with_nz(written(inc_read(s, addr), addr, v), v)
}

pub open spec fn dec_value(s: CpuState, addr: u16) -> u8 {
    ((read_value(s, addr) - 1) % 256) as u8
}

#[verifier::opaque]
pub open spec fn dec_ok(s: CpuState, addr: u16) -> bool {
    bus_readable(s.bus, addr) && write_ok(after_read(s, addr), addr, dec_value(s, addr))
}

#[verifier::opaque]
pub open spec fn after_dec(s: CpuState, addr: u16) -> CpuState {
    let v = dec_value(s, addr);
    with_nz(written(after_read(s, addr), addr, v), v)
}

/// `r + 1` and `r - 1` modulo 256.
pub open spec fn inc8(r: u8) -> u8 {
    ((r + 1) % 256) as u8
}

pub open spec fn dec8(r: u8) -> u8 {
    ((r - 1) % 256) as u8
}

#[verifier::opaque]
pub open spec fn after_lda(s: CpuState, addr: u16, m: AddrMode) -> CpuState {
    let v = operand(s, addr, m);
    with_nz(with_a(operand_read(s, addr, m), v), v)
}

#[verifier::opaque]
pub open spec fn after_ldx(s: CpuState, addr: u16, m: AddrMode) -> CpuState {
    let v = operand(s, addr, m);
    with_nz(with_x(operand_read(s, addr, m), v), v)
}

#[verifier::opaque]
pub open spec fn after_ldy(s: CpuState, addr: u16, m: AddrMode) -> CpuState {
    let v = operand(s, addr, m);
    with_nz(with_y(operand_read(s, addr, m), v), v)
}

/// The two bytes of a 16-bit value, high first, as they are pushed.
pub open spec fn high_byte(v: u16) -> u8 {
    (v / 256) as u8
}

pub open spec fn low_byte(v: u16) -> u8 {
    (v % 256) as u8
}

/// The state after a 16-bit value was pushed, high byte first.
pub open spec fn pushed_word(s: CpuState, v: u16) -> CpuState {
    pushed(pushed(s, high_byte(v)), low_byte(v))
}

/// The state after the return address of a subroutine call was pulled,
/// low byte first, and the word it makes.
pub open spec fn pulled_word(s: CpuState) -> (CpuState, u16) {
    let l = pull_value(s);
    let s1 = pulled(s);
    (pulled(s1), word_of(l, pull_value(s1)))
}

#[verifier::opaque]
pub open spec fn after_jsr(s: CpuState, addr: u16) -> CpuState {
    with_pc(pushed_word(s, (s.regs.pc - 1) as u16), addr)
}

#[verifier::opaque]
pub open spec fn after_rts(s: CpuState) -> CpuState {
    let (s1, w) = pulled_word(s);
    with_pc(s1, ((w + 1) % 0x10000) as u16)
}

/// The interrupt entry of BRK: the program counter moves on by one and is
/// pushed, the break and interrupt flags are set, the status is pushed, and
/// the program counter is loaded from 0xFFFE/0xFFFF.
pub open spec fn brk_entered(s: CpuState) -> CpuState {
    let s1 = pushed_word(with_pc(s, (s.regs.pc + 1) as u16), (s.regs.pc + 1) as u16);
    let s2 = with_flags(s1, PFlags { break_mode: true, interrupt: true, ..s1.regs.p });
    let s3 = pushed(s2, flags_to_byte(s2.regs.p));
    with_pc(
        s3,
        word_of(
            cpu_map_read(s3.bus.cpu, s3.bus.regs, 0xFFFE),
            cpu_map_read(s3.bus.cpu, s3.bus.regs, 0xFFFF),
        ),
    )
}

/// BRK, with the break flag clear: the interrupt entry when the interrupt
/// flag is set, else nothing.
#[verifier::opaque]
pub open spec fn after_brk(s: CpuState) -> CpuState {
    if s.regs.p.interrupt {
        brk_entered(s)
    } else {
        s
    }
}

pub open spec fn brk_ok(s: CpuState) -> bool {
    !s.regs.p.break_mode && (s.regs.p.interrupt ==> s.regs.pc + 1 <= u16::MAX)
}

#[verifier::opaque]
pub open spec fn after_rti(s: CpuState) -> CpuState {
    let p = pull_value(s);
    let (s1, w) = pulled_word(pulled(s));
    with_flags(with_pc(s1, w), flags_from_byte(p))
}

/// Instructions that take an operand and write no memory.
pub open spec fn reads_operand(k: OpeKind) -> bool {
    match k {
        OpeKind::Adc | OpeKind::Sbc | OpeKind::And | OpeKind::Ora | OpeKind::Eor | OpeKind::Cmp | OpeKind::Cpx | OpeKind::Cpy | OpeKind::Lda | OpeKind::Ldx | OpeKind::Ldy | OpeKind::Bit | OpeKind::Lax => true,
        _ => false,
    }
}

/// Instructions that write memory, or shift a byte in place.
pub open spec fn writes_memory(k: OpeKind) -> bool {
    match k {
        OpeKind::Asl | OpeKind::Lsr | OpeKind::Rol | OpeKind::Ror | OpeKind::Inc | OpeKind::Dec | OpeKind::Sta | OpeKind::Stx | OpeKind::Sty | OpeKind::Sax | OpeKind::Dcp | OpeKind::Isb | OpeKind::Slo | OpeKind::Rla | OpeKind::Sre | OpeKind::Rra => true,
        _ => false,
    }
}

/// Branches, jumps, calls and returns.
pub open spec fn changes_flow(k: OpeKind) -> bool {
    match k {
        OpeKind::Bcc | OpeKind::Bcs | OpeKind::Beq | OpeKind::Bne | OpeKind::Bvc | OpeKind::Bvs | OpeKind::Bpl | OpeKind::Bmi | OpeKind::Jmp | OpeKind::Jsr | OpeKind::Rts | OpeKind::Brk | OpeKind::Rti => true,
        _ => false,
    }
}

/// An instruction kind that this processor carries out: the ones that
/// stop the program or are left unimplemented are not.
pub open spec fn kind_supported(k: OpeKind) -> bool {
    match k {
        OpeKind::Kil | OpeKind::Lxa | OpeKind::Aac | OpeKind::Atx | OpeKind::Asr | OpeKind::Arr
        | OpeKind::Aax | OpeKind::Xaa | OpeKind::Axa | OpeKind::Xas | OpeKind::Sxa | OpeKind::Sya
        | OpeKind::Lar | OpeKind::Axs | OpeKind::Isc | OpeKind::Las => false,
        _ => true,
    }
}

/// The instruction `k` can run from `s` with operand address `addr`.
#[verifier::opaque]
pub open spec fn run_ok(s: CpuState, addr: u16, k: OpeKind, m: AddrMode) -> bool {
    if reads_operand(k) {
        run_ok_read(s, addr, k, m)
    } else if writes_memory(k) {
        run_ok_write(s, addr, k, m)
    } else if changes_flow(k) {
        run_ok_flow(s, addr, k, m)
    } else {
        kind_supported(k)
    }
}

/// When the instructions that read an operand can run.
#[verifier::opaque]
pub open spec fn run_ok_read(s: CpuState, addr: u16, k: OpeKind, m: AddrMode) -> bool {
    match k {
        OpeKind::Adc => operand_ok(
            s,
            addr,
            m,
        ),
        OpeKind::Sbc => operand_ok(
            s,
            addr,
            m,
        ),
        OpeKind::And => operand_ok(
            s,
            addr,
            m,
        ),
        OpeKind::Ora => operand_ok(
            s,
            addr,
            m,
        ),
        OpeKind::Eor => operand_ok(
            s,
            addr,
            m,
        ),
        OpeKind::Cmp => operand_ok(
            s,
            addr,
            m,
        ),
        OpeKind::Cpx => operand_ok(
            s,
            addr,
            m,
        ),
        OpeKind::Cpy => operand_ok(
            s,
            addr,
            m,
        ),
        OpeKind::Lda => operand_ok(
            s,
            addr,
            m,
        ),
        OpeKind::Ldx => operand_ok(
            s,
            addr,
            m,
        ),
        OpeKind::Ldy => operand_ok(
            s,
            addr,
            m,
        ),
        OpeKind::Bit => bus_readable(s.bus, addr),
        OpeKind::Lax => operand_ok(s, addr, m) && operand_ok(after_lda(s, addr, m), addr, m),
        _ => false,
    }
}

/// When the instructions that write memory can run.
#[verifier::opaque]
pub open spec fn run_ok_write(s: CpuState, addr: u16, k: OpeKind, m: AddrMode) -> bool {
    match k {
        OpeKind::Asl => rmw_ok(s, addr, m),
        OpeKind::Lsr => rmw_ok(s, addr, m),
        OpeKind::Rol => rmw_ok(s, addr, m),
        OpeKind::Ror => rmw_ok(s, addr, m),
        OpeKind::Inc => inc_ok(s, addr),
        OpeKind::Dec => dec_ok(s, addr),
        OpeKind::Sta => write_ok(s, addr, s.regs.a),
        OpeKind::Stx => write_ok(s, addr, s.regs.x),
        OpeKind::Sty => write_ok(s, addr, s.regs.y),
        OpeKind::Sax => write_ok(s, addr, s.regs.a & s.regs.x),
        OpeKind::Dcp => dec_ok(s, addr) && operand_ok(after_dec(s, addr), addr, m),
        OpeKind::Isb => inc_ok(s, addr) && operand_ok(after_inc(s, addr), addr, m),
        OpeKind::Slo => rmw_ok(s, addr, m) && operand_ok(after_asl(s, addr, m), addr, m),
        OpeKind::Rla => rmw_ok(s, addr, m) && operand_ok(after_rol(s, addr, m), addr, m),
        OpeKind::Sre => rmw_ok(s, addr, m) && operand_ok(after_lsr(s, addr, m), addr, m),
        OpeKind::Rra => rmw_ok(s, addr, m) && operand_ok(after_ror(s, addr, m), addr, m),
        _ => false,
    }
}

/// When the branches, jumps, calls and returns can run.
#[verifier::opaque]
pub open spec fn run_ok_flow(s: CpuState, addr: u16, k: OpeKind, m: AddrMode) -> bool {
    match k {
        OpeKind::Bcc => branch_ok(s, branch_cond(s, k)),
        OpeKind::Bcs => branch_ok(s, branch_cond(s, k)),
        OpeKind::Beq => branch_ok(s, branch_cond(s, k)),
        OpeKind::Bne => branch_ok(s, branch_cond(s, k)),
        OpeKind::Bvc => branch_ok(s, branch_cond(s, k)),
        OpeKind::Bvs => branch_ok(s, branch_cond(s, k)),
        OpeKind::Bpl => branch_ok(s, branch_cond(s, k)),
        OpeKind::Bmi => branch_ok(s, branch_cond(s, k)),
        OpeKind::Jmp => true,
        OpeKind::Jsr => s.regs.pc >= 1,
        OpeKind::Rts => true,
        OpeKind::Brk => brk_ok(s),
        OpeKind::Rti => true,
        _ => false,
    }
}



/// The state after the instruction `k` ran from `s` with operand address
/// `addr`.
#[verifier::opaque]
pub open spec fn ran(s: CpuState, addr: u16, k: OpeKind, m: AddrMode) -> CpuState {
    if reads_operand(k) {
        ran_read(s, addr, k, m)
    } else if writes_memory(k) {
        ran_write(s, addr, k, m)
    } else if changes_flow(k) {
        ran_flow(s, addr, k, m)
    } else {
        ran_register(s, addr, k, m)
    }
}

/// What the instructions that read an operand do.
#[verifier::opaque]
pub open spec fn ran_read(s: CpuState, addr: u16, k: OpeKind, m: AddrMode) -> CpuState {
    match k {
        OpeKind::Adc => after_adc(s, addr, m),
        OpeKind::Sbc => after_sbc(s, addr, m),
        OpeKind::And => after_and(s, addr, m),
        OpeKind::Ora => after_ora(s, addr, m),
        OpeKind::Eor => after_eor(s, addr, m),
        OpeKind::Cmp => after_cmp(s, addr, m),
        OpeKind::Cpx => after_cpx(s, addr, m),
        OpeKind::Cpy => after_cpy(s, addr, m),
        OpeKind::Lda => after_lda(s, addr, m),
        OpeKind::Ldx => after_ldx(s, addr, m),
        OpeKind::Ldy => after_ldy(s, addr, m),
        OpeKind::Bit => after_bit(s, addr),
        OpeKind::Lax => after_ldx(after_lda(s, addr, m), addr, m),
        _ => s,
    }
}

/// What the instructions that write memory do.
#[verifier::opaque]
pub open spec fn ran_write(s: CpuState, addr: u16, k: OpeKind, m: AddrMode) -> CpuState {
    match k {
        OpeKind::Asl => after_asl(s, addr, m),
        OpeKind::Lsr => after_lsr(s, addr, m),
        OpeKind::Rol => after_rol(s, addr, m),
        OpeKind::Ror => after_ror(s, addr, m),
        OpeKind::Inc => after_inc(s, addr),
        OpeKind::Dec => after_dec(s, addr),
        OpeKind::Sta => written(s, addr, s.regs.a),
        OpeKind::Stx => written(s, addr, s.regs.x),
        OpeKind::Sty => written(s, addr, s.regs.y),
        OpeKind::Sax => written(s, addr, s.regs.a & s.regs.x),
        OpeKind::Dcp => after_cmp(after_dec(s, addr), addr, m),
        OpeKind::Isb => after_sbc(after_inc(s, addr), addr, m),
        OpeKind::Slo => after_ora(after_asl(s, addr, m), addr, m),
        OpeKind::Rla => after_and(after_rol(s, addr, m), addr, m),
        OpeKind::Sre => after_eor(after_lsr(s, addr, m), addr, m),
        OpeKind::Rra => after_adc(after_ror(s, addr, m), addr, m),
        _ => s,
    }
}

/// What the branches, jumps, calls and returns do.
#[verifier::opaque]
pub open spec fn ran_flow(s: CpuState, addr: u16, k: OpeKind, m: AddrMode) -> CpuState {
    match k {
        OpeKind::Bcc => after_branch(s, addr, branch_cond(s, k)),
        OpeKind::Bcs => after_branch(s, addr, branch_cond(s, k)),
        OpeKind::Beq => after_branch(s, addr, branch_cond(s, k)),
        OpeKind::Bne => after_branch(s, addr, branch_cond(s, k)),
        OpeKind::Bvc => after_branch(s, addr, branch_cond(s, k)),
        OpeKind::Bvs => after_branch(s, addr, branch_cond(s, k)),
        OpeKind::Bpl => after_branch(s, addr, branch_cond(s, k)),
        OpeKind::Bmi => after_branch(s, addr, branch_cond(s, k)),
        OpeKind::Jmp => with_pc(s, addr),
        OpeKind::Jsr => after_jsr(s, addr),
        OpeKind::Rts => after_rts(s),
        OpeKind::Brk => after_brk(s),
        OpeKind::Rti => after_rti(s),
        _ => s,
    }
}

/// What the instructions on registers, flags and the stack do.
#[verifier::opaque]
pub open spec fn ran_register(s: CpuState, addr: u16, k: OpeKind, m: AddrMode) -> CpuState {
    match k {
        OpeKind::Inx => with_nz(with_x(s, inc8(s.regs.x)), inc8(s.regs.x)),
        OpeKind::Dex => with_nz(with_x(s, dec8(s.regs.x)), dec8(s.regs.x)),
        OpeKind::Iny => with_nz(with_y(s, inc8(s.regs.y)), inc8(s.regs.y)),
        OpeKind::Dey => with_nz(with_y(s, dec8(s.regs.y)), dec8(s.regs.y)),
        OpeKind::Clc => with_carry(s, false),
        OpeKind::Sec => with_carry(s, true),
        OpeKind::Cli => with_flags(s, PFlags { interrupt: false, ..s.regs.p }),
        OpeKind::Sei => with_flags(s, PFlags { interrupt: true, ..s.regs.p }),
        OpeKind::Cld => with_flags(s, PFlags { decimal: false, ..s.regs.p }),
        OpeKind::Sed => with_flags(s, PFlags { decimal: true, ..s.regs.p }),
        OpeKind::Clv => with_overflow(s, false),
        OpeKind::Tax => with_nz(with_x(s, s.regs.a), s.regs.a),
        OpeKind::Txa => with_nz(with_a(s, s.regs.x), s.regs.x),
        OpeKind::Tsx => with_nz(with_x(s, s.regs.s), s.regs.s),
        OpeKind::Tay => with_nz(with_y(s, s.regs.a), s.regs.a),
        OpeKind::Tya => with_nz(with_a(s, s.regs.y), s.regs.y),
        OpeKind::Txs => with_s(s, s.regs.x),
        OpeKind::Pha => pushed(s, s.regs.a),
        OpeKind::Pla => with_nz(with_a(pulled(s), pull_value(s)), pull_value(s)),
        OpeKind::Php => pushed(s, flags_to_byte(s.regs.p) | 0x20),
        OpeKind::Plp => with_flags(pulled(s), flags_from_byte(pull_value(s) & 0xEF)),
        _ => s,
    }
}



/// The table entries of Adc, Sbc, And, Ora, Eor.
#[verifier::spinoff_prover]
#[verifier::rlimit(40)]
pub proof fn lemma_read_table_0(s: CpuState, addr: u16, m: AddrMode)
    ensures
        ran(s, addr, OpeKind::Adc, m) == after_adc(s, addr, m),
        run_ok(s, addr, OpeKind::Adc, m) == (operand_ok( s, addr, m, )),
        ran(s, addr, OpeKind::Sbc, m) == after_sbc(s, addr, m),
        run_ok(s, addr, OpeKind::Sbc, m) == (operand_ok( s, addr, m, )),
        ran(s, addr, OpeKind::And, m) == after_and(s, addr, m),
        run_ok(s, addr, OpeKind::And, m) == (operand_ok( s, addr, m, )),
        ran(s, addr, OpeKind::Ora, m) == after_ora(s, addr, m),
        run_ok(s, addr, OpeKind::Ora, m) == (operand_ok( s, addr, m, )),
        ran(s, addr, OpeKind::Eor, m) == after_eor(s, addr, m),
        run_ok(s, addr, OpeKind::Eor, m) == (operand_ok( s, addr, m, )),
{
    reveal(ran);
    reveal(run_ok);
    reveal(ran_read);
    reveal(run_ok_read);
}

/// The table entries of Cmp, Cpx, Cpy, Lda, Ldx.
#[verifier::spinoff_prover]
#[verifier::rlimit(40)]
pub proof fn lemma_read_table_1(s: CpuState, addr: u16, m: AddrMode)
    ensures
        ran(s, addr, OpeKind::Cmp, m) == after_cmp(s, addr, m),
        run_ok(s, addr, OpeKind::Cmp, m) == (operand_ok( s, addr, m, )),
        ran(s, addr, OpeKind::Cpx, m) == after_cpx(s, addr, m),
        run_ok(s, addr, OpeKind::Cpx, m) == (operand_ok( s, addr, m, )),
        ran(s, addr, OpeKind::Cpy, m) == after_cpy(s, addr, m),
        run_ok(s, addr, OpeKind::Cpy, m) == (operand_ok( s, addr, m, )),
        ran(s, addr, OpeKind::Lda, m) == after_lda(s, addr, m),
        run_ok(s, addr, OpeKind::Lda, m) == (operand_ok( s, addr, m, )),
        ran(s, addr, OpeKind::Ldx, m) == after_ldx(s, addr, m),
        run_ok(s, addr, OpeKind::Ldx, m) == (operand_ok( s, addr, m, )),
{
    reveal(ran);
    reveal(run_ok);
    reveal(ran_read);
    reveal(run_ok_read);
}

/// The table entries of Ldy, Bit, Lax.
#[verifier::spinoff_prover]
#[verifier::rlimit(40)]
pub proof fn lemma_read_table_2(s: CpuState, addr: u16, m: AddrMode)
    ensures
        ran(s, addr, OpeKind::Ldy, m) == after_ldy(s, addr, m),
        run_ok(s, addr, OpeKind::Ldy, m) == (operand_ok( s, addr, m, )),
        ran(s, addr, OpeKind::Bit, m) == after_bit(s, addr),
        run_ok(s, addr, OpeKind::Bit, m) == (bus_readable(s.bus, addr)),
        ran(s, addr, OpeKind::Lax, m) == after_ldx(after_lda(s, addr, m), addr, m),
        run_ok(s, addr, OpeKind::Lax, m) == (operand_ok(s, addr, m) && operand_ok(after_lda(s, addr, m), addr, m)),
{
    reveal(ran);
    reveal(run_ok);
    reveal(ran_read);
    reveal(run_ok_read);
}

/// The table entries of Asl, Lsr, Rol, Ror, Inc.
#[verifier::spinoff_prover]
#[verifier::rlimit(40)]
pub proof fn lemma_write_table_0(s: CpuState, addr: u16, m: AddrMode)
    ensures
        ran(s, addr, OpeKind::Asl, m) == after_asl(s, addr, m),
        run_ok(s, addr, OpeKind::Asl, m) == (rmw_ok(s, addr, m)),
        ran(s, addr, OpeKind::Lsr, m) == after_lsr(s, addr, m),
        run_ok(s, addr, OpeKind::Lsr, m) == (rmw_ok(s, addr, m)),
        ran(s, addr, OpeKind::Rol, m) == after_rol(s, addr, m),
        run_ok(s, addr, OpeKind::Rol, m) == (rmw_ok(s, addr, m)),
        ran(s, addr, OpeKind::Ror, m) == after_ror(s, addr, m),
        run_ok(s, addr, OpeKind::Ror, m) == (rmw_ok(s, addr, m)),
        ran(s, addr, OpeKind::Inc, m) == after_inc(s, addr),
        run_ok(s, addr, OpeKind::Inc, m) == (inc_ok(s, addr)),
{
    reveal(ran);
    reveal(run_ok);
    reveal(ran_write);
    reveal(run_ok_write);
}

/// The table entries of Dec, Sta, Stx, Sty, Sax.
#[verifier::spinoff_prover]
#[verifier::rlimit(40)]
pub proof fn lemma_write_table_1(s: CpuState, addr: u16, m: AddrMode)
    ensures
        ran(s, addr, OpeKind::Dec, m) == after_dec(s, addr),
        run_ok(s, addr, OpeKind::Dec, m) == (dec_ok(s, addr)),
        ran(s, addr, OpeKind::Sta, m) == written(s, addr, s.regs.a),
        run_ok(s, addr, OpeKind::Sta, m) == (write_ok(s, addr, s.regs.a)),
        ran(s, addr, OpeKind::Stx, m) == written(s, addr, s.regs.x),
        run_ok(s, addr, OpeKind::Stx, m) == (write_ok(s, addr, s.regs.x)),
        ran(s, addr, OpeKind::Sty, m) == written(s, addr, s.regs.y),
        run_ok(s, addr, OpeKind::Sty, m) == (write_ok(s, addr, s.regs.y)),
        ran(s, addr, OpeKind::Sax, m) == written(s, addr, s.regs.a & s.regs.x),
        run_ok(s, addr, OpeKind::Sax, m) == (write_ok(s, addr, s.regs.a & s.regs.x)),
{
    reveal(ran);
    reveal(run_ok);
    reveal(ran_write);
    reveal(run_ok_write);
}

/// The table entries of Dcp, Isb, Slo, Rla, Sre.
#[verifier::spinoff_prover]
#[verifier::rlimit(40)]
pub proof fn lemma_write_table_2(s: CpuState, addr: u16, m: AddrMode)
    ensures
        ran(s, addr, OpeKind::Dcp, m) == after_cmp(after_dec(s, addr), addr, m),
        run_ok(s, addr, OpeKind::Dcp, m) == (dec_ok(s, addr) && operand_ok(after_dec(s, addr), addr, m)),
        ran(s, addr, OpeKind::Isb, m) == after_sbc(after_inc(s, addr), addr, m),
        run_ok(s, addr, OpeKind::Isb, m) == (inc_ok(s, addr) && operand_ok(after_inc(s, addr), addr, m)),
        ran(s, addr, OpeKind::Slo, m) == after_ora(after_asl(s, addr, m), addr, m),
        run_ok(s, addr, OpeKind::Slo, m) == (rmw_ok(s, addr, m) && operand_ok(after_asl(s, addr, m), addr, m)),
        ran(s, addr, OpeKind::Rla, m) == after_and(after_rol(s, addr, m), addr, m),
        run_ok(s, addr, OpeKind::Rla, m) == (rmw_ok(s, addr, m) && operand_ok(after_rol(s, addr, m), addr, m)),
        ran(s, addr, OpeKind::Sre, m) == after_eor(after_lsr(s, addr, m), addr, m),
        run_ok(s, addr, OpeKind::Sre, m) == (rmw_ok(s, addr, m) && operand_ok(after_lsr(s, addr, m), addr, m)),
{
    reveal(ran);
    reveal(run_ok);
    reveal(ran_write);
    reveal(run_ok_write);
}

/// The table entries of Rra.
#[verifier::spinoff_prover]
#[verifier::rlimit(40)]
pub proof fn lemma_write_table_3(s: CpuState, addr: u16, m: AddrMode)
    ensures
        ran(s, addr, OpeKind::Rra, m) == after_adc(after_ror(s, addr, m), addr, m),
        run_ok(s, addr, OpeKind::Rra, m) == (rmw_ok(s, addr, m) && operand_ok(after_ror(s, addr, m), addr, m)),
{
    reveal(ran);
    reveal(run_ok);
    reveal(ran_write);
    reveal(run_ok_write);
}

/// The table entries of Bcc, Bcs, Beq, Bne, Bvc.
#[verifier::spinoff_prover]
#[verifier::rlimit(40)]
pub proof fn lemma_flow_table_0(s: CpuState, addr: u16, m: AddrMode)
    ensures
        ran(s, addr, OpeKind::Bcc, m) == after_branch(s, addr, branch_cond(s, OpeKind::Bcc)),
        run_ok(s, addr, OpeKind::Bcc, m) == (branch_ok(s, branch_cond(s, OpeKind::Bcc))),
        ran(s, addr, OpeKind::Bcs, m) == after_branch(s, addr, branch_cond(s, OpeKind::Bcs)),
        run_ok(s, addr, OpeKind::Bcs, m) == (branch_ok(s, branch_cond(s, OpeKind::Bcs))),
        ran(s, addr, OpeKind::Beq, m) == after_branch(s, addr, branch_cond(s, OpeKind::Beq)),
        run_ok(s, addr, OpeKind::Beq, m) == (branch_ok(s, branch_cond(s, OpeKind::Beq))),
        ran(s, addr, OpeKind::Bne, m) == after_branch(s, addr, branch_cond(s, OpeKind::Bne)),
        run_ok(s, addr, OpeKind::Bne, m) == (branch_ok(s, branch_cond(s, OpeKind::Bne))),
        ran(s, addr, OpeKind::Bvc, m) == after_branch(s, addr, branch_cond(s, OpeKind::Bvc)),
        run_ok(s, addr, OpeKind::Bvc, m) == (branch_ok(s, branch_cond(s, OpeKind::Bvc))),
{
    reveal(ran);
    reveal(run_ok);
    reveal(ran_flow);
    reveal(run_ok_flow);
}

/// The table entries of Bvs, Bpl, Bmi, Jmp, Jsr.
#[verifier::spinoff_prover]
#[verifier::rlimit(40)]
pub proof fn lemma_flow_table_1(s: CpuState, addr: u16, m: AddrMode)
    ensures
        ran(s, addr, OpeKind::Bvs, m) == after_branch(s, addr, branch_cond(s, OpeKind::Bvs)),
        run_ok(s, addr, OpeKind::Bvs, m) == (branch_ok(s, branch_cond(s, OpeKind::Bvs))),
        ran(s, addr, OpeKind::Bpl, m) == after_branch(s, addr, branch_cond(s, OpeKind::Bpl)),
        run_ok(s, addr, OpeKind::Bpl, m) == (branch_ok(s, branch_cond(s, OpeKind::Bpl))),
        ran(s, addr, OpeKind::Bmi, m) == after_branch(s, addr, branch_cond(s, OpeKind::Bmi)),
        run_ok(s, addr, OpeKind::Bmi, m) == (branch_ok(s, branch_cond(s, OpeKind::Bmi))),
        ran(s, addr, OpeKind::Jmp, m) == with_pc(s, addr),
        run_ok(s, addr, OpeKind::Jmp, m) == (kind_supported(OpeKind::Jmp)),
        ran(s, addr, OpeKind::Jsr, m) == after_jsr(s, addr),
        run_ok(s, addr, OpeKind::Jsr, m) == (s.regs.pc >= 1),
{
    reveal(ran);
    reveal(run_ok);
    reveal(ran_flow);
    reveal(run_ok_flow);
}

/// The table entries of Rts, Brk, Rti.
#[verifier::spinoff_prover]
#[verifier::rlimit(40)]
pub proof fn lemma_flow_table_2(s: CpuState, addr: u16, m: AddrMode)
    ensures
        ran(s, addr, OpeKind::Rts, m) == after_rts(s),
        run_ok(s, addr, OpeKind::Rts, m) == (kind_supported(OpeKind::Rts)),
        ran(s, addr, OpeKind::Brk, m) == after_brk(s),
        run_ok(s, addr, OpeKind::Brk, m) == (brk_ok(s)),
        ran(s, addr, OpeKind::Rti, m) == after_rti(s),
        run_ok(s, addr, OpeKind::Rti, m) == (kind_supported(OpeKind::Rti)),
{
    reveal(ran);
    reveal(run_ok);
    reveal(ran_flow);
    reveal(run_ok_flow);
}

/// The table entries of Inx, Dex, Iny, Dey, Clc.
#[verifier::spinoff_prover]
#[verifier::rlimit(40)]
pub proof fn lemma_register_table_0(s: CpuState, addr: u16, m: AddrMode)
    ensures
        ran(s, addr, OpeKind::Inx, m) == with_nz(with_x(s, inc8(s.regs.x)), inc8(s.regs.x)),
        run_ok(s, addr, OpeKind::Inx, m) == (kind_supported(OpeKind::Inx)),
        ran(s, addr, OpeKind::Dex, m) == with_nz(with_x(s, dec8(s.regs.x)), dec8(s.regs.x)),
        run_ok(s, addr, OpeKind::Dex, m) == (kind_supported(OpeKind::Dex)),
        ran(s, addr, OpeKind::Iny, m) == with_nz(with_y(s, inc8(s.regs.y)), inc8(s.regs.y)),
        run_ok(s, addr, OpeKind::Iny, m) == (kind_supported(OpeKind::Iny)),
        ran(s, addr, OpeKind::Dey, m) == with_nz(with_y(s, dec8(s.regs.y)), dec8(s.regs.y)),
        run_ok(s, addr, OpeKind::Dey, m) == (kind_supported(OpeKind::Dey)),
        ran(s, addr, OpeKind::Clc, m) == with_carry(s, false),
        run_ok(s, addr, OpeKind::Clc, m) == (kind_supported(OpeKind::Clc)),
{
    reveal(ran);
    reveal(run_ok);
    reveal(ran_register);
}

/// The table entries of Sec, Cli.
#[verifier::spinoff_prover]
#[verifier::rlimit(40)]
pub proof fn lemma_register_table_1a(s: CpuState, addr: u16, m: AddrMode)
    ensures
        ran(s, addr, OpeKind::Sec, m) == with_carry(s, true),
        run_ok(s, addr, OpeKind::Sec, m) == (kind_supported(OpeKind::Sec)),
        ran(s, addr, OpeKind::Cli, m) == with_flags(s, PFlags { interrupt: false, ..s.regs.p }),
        run_ok(s, addr, OpeKind::Cli, m) == (kind_supported(OpeKind::Cli)),
{
    reveal(ran);
    reveal(run_ok);
    reveal(ran_register);
}

/// The table entries of Sei, Cld.
#[verifier::spinoff_prover]
#[verifier::rlimit(40)]
pub proof fn lemma_register_table_1b(s: CpuState, addr: u16, m: AddrMode)
    ensures
        ran(s, addr, OpeKind::Sei, m) == with_flags(s, PFlags { interrupt: true, ..s.regs.p }),
        run_ok(s, addr, OpeKind::Sei, m) == (kind_supported(OpeKind::Sei)),
        ran(s, addr, OpeKind::Cld, m) == with_flags(s, PFlags { decimal: false, ..s.regs.p }),
        run_ok(s, addr, OpeKind::Cld, m) == (kind_supported(OpeKind::Cld)),
{
    reveal(ran);
    reveal(run_ok);
    reveal(ran_register);
}

/// The table entries of Sed.
#[verifier::spinoff_prover]
#[verifier::rlimit(40)]
pub proof fn lemma_register_table_1c(s: CpuState, addr: u16, m: AddrMode)
    ensures
        ran(s, addr, OpeKind::Sed, m) == with_flags(s, PFlags { decimal: true, ..s.regs.p }),
        run_ok(s, addr, OpeKind::Sed, m) == (kind_supported(OpeKind::Sed)),
{
    reveal(ran);
    reveal(run_ok);
    reveal(ran_register);
}

/// The table entries of Clv, Tax, Txa, Tsx, Tay.
#[verifier::spinoff_prover]
#[verifier::rlimit(40)]
pub proof fn lemma_register_table_2(s: CpuState, addr: u16, m: AddrMode)
    ensures
        ran(s, addr, OpeKind::Clv, m) == with_overflow(s, false),
        run_ok(s, addr, OpeKind::Clv, m) == (kind_supported(OpeKind::Clv)),
        ran(s, addr, OpeKind::Tax, m) == with_nz(with_x(s, s.regs.a), s.regs.a),
        run_ok(s, addr, OpeKind::Tax, m) == (kind_supported(OpeKind::Tax)),
        ran(s, addr, OpeKind::Txa, m) == with_nz(with_a(s, s.regs.x), s.regs.x),
        run_ok(s, addr, OpeKind::Txa, m) == (kind_supported(OpeKind::Txa)),
        ran(s, addr, OpeKind::Tsx, m) == with_nz(with_x(s, s.regs.s), s.regs.s),
        run_ok(s, addr, OpeKind::Tsx, m) == (kind_supported(OpeKind::Tsx)),
        ran(s, addr, OpeKind::Tay, m) == with_nz(with_y(s, s.regs.a), s.regs.a),
        run_ok(s, addr, OpeKind::Tay, m) == (kind_supported(OpeKind::Tay)),
{
    reveal(ran);
    reveal(run_ok);
    reveal(ran_register);
}

/// The table entries of Tya, Txs, Pha, Pla, Php.
#[verifier::spinoff_prover]
#[verifier::rlimit(40)]
pub proof fn lemma_register_table_3(s: CpuState, addr: u16, m: AddrMode)
    ensures
        ran(s, addr, OpeKind::Tya, m) == with_nz(with_a(s, s.regs.y), s.regs.y),
        run_ok(s, addr, OpeKind::Tya, m) == (kind_supported(OpeKind::Tya)),
        ran(s, addr, OpeKind::Txs, m) == with_s(s, s.regs.x),
        run_ok(s, addr, OpeKind::Txs, m) == (kind_supported(OpeKind::Txs)),
        ran(s, addr, OpeKind::Pha, m) == pushed(s, s.regs.a),
        run_ok(s, addr, OpeKind::Pha, m) == (kind_supported(OpeKind::Pha)),
        ran(s, addr, OpeKind::Pla, m) == with_nz(with_a(pulled(s), pull_value(s)), pull_value(s)),
        run_ok(s, addr, OpeKind::Pla, m) == (kind_supported(OpeKind::Pla)),
        ran(s, addr, OpeKind::Php, m) == pushed(s, flags_to_byte(s.regs.p) | 0x20),
        run_ok(s, addr, OpeKind::Php, m) == (kind_supported(OpeKind::Php)),
{
    reveal(ran);
    reveal(run_ok);
    reveal(ran_register);
}

/// The table entries of Plp, Nop, Dop, Top.
#[verifier::spinoff_prover]
#[verifier::rlimit(40)]
pub proof fn lemma_register_table_4(s: CpuState, addr: u16, m: AddrMode)
    ensures
        ran(s, addr, OpeKind::Plp, m) == with_flags(pulled(s), flags_from_byte(pull_value(s) & 0xEF)),
        run_ok(s, addr, OpeKind::Plp, m) == (kind_supported(OpeKind::Plp)),
        ran(s, addr, OpeKind::Nop, m) == s,
        run_ok(s, addr, OpeKind::Nop, m) == (kind_supported(OpeKind::Nop)),
        ran(s, addr, OpeKind::Dop, m) == s,
        run_ok(s, addr, OpeKind::Dop, m) == (kind_supported(OpeKind::Dop)),
        ran(s, addr, OpeKind::Top, m) == s,
        run_ok(s, addr, OpeKind::Top, m) == (kind_supported(OpeKind::Top)),
{
    reveal(ran);
    reveal(run_ok);
    reveal(ran_register);
}

/// The instructions that stop the program or are left unimplemented can
/// never run.
pub proof fn lemma_unsupported(s: CpuState, addr: u16, k: OpeKind, m: AddrMode)
    requires
        !kind_supported(k),
    ensures
        !run_ok(s, addr, k, m),
{
    reveal(run_ok);
}

/// The sign bit and the lowest bit of a byte, as comparisons.
pub proof fn lemma_byte_bits(n: u8)
    ensures
        (n & 0x80 != 0) == (n >= 0x80),
        (n & 0x80 == 0) == (n < 0x80),
        (n & 1 != 0) == (n % 2 == 1),
{
    assert((n & 0x80 != 0) == (n >= 0x80) && (n & 0x80 == 0) == (n < 0x80) && (n & 1 != 0) == (n
        % 2 == 1)) by (bit_vector);
}

/// Where the program counter goes on an opcode that the instruction table
/// lacks: it moves on by itself plus one.
pub open spec fn undef_pc(s: CpuState) -> int {
    s.regs.pc + (s.regs.pc + 1) % 0x10000
}

/// One instruction can run from `s` with the instruction table `ops`: the
/// opcode can be read; a known opcode finds its operand, runs, and its
/// cycles can be counted; an unknown one can be skipped.
pub open spec fn step_ok(s: CpuState, ops: Map<u8, Operator>) -> bool {
    let s1 = fetched(s);
    let code = fetch_value(s);
    &&& bus_readable(s.bus, s.regs.pc)
    &&& if ops.contains_key(code) {
        let op = ops[code];
        let s2 = addressed(s1, op.addr_mode);
        let a = addressed_addr(s1, op.addr_mode);
        &&& addressing_ok(s1, op.addr_mode)
        &&& run_ok(s2, a, op.ope_kind, op.addr_mode)
        &&& can_count(ran(s2, a, op.ope_kind, op.addr_mode), op.cycle as int)
    } else {
        undef_pc(s1) <= u16::MAX && s1.cycle + 1 <= u16::MAX
    }
}

/// The state after one instruction from `s`: the opcode is read and looked
/// up; a known one finds its operand, runs, and counts its cycles; an
/// unknown one is skipped with one cycle.
pub open spec fn stepped(s: CpuState, ops: Map<u8, Operator>) -> CpuState {
    let s1 = fetched(s);
    let code = fetch_value(s);
    if ops.contains_key(code) {
        let op = ops[code];
        let s2 = addressed(s1, op.addr_mode);
        let a = addressed_addr(s1, op.addr_mode);
        counted(ran(s2, a, op.ope_kind, op.addr_mode), op.cycle as int)
    } else {
        let s2 = with_pc(s1, undef_pc(s1) as u16);
        CpuState { cycle: (s2.cycle + 1) as u16, ..s2 }
    }
}

/// The non-maskable interrupt: the break flag is cleared and the interrupt
/// flag set, the program counter and then the status are pushed, and the
/// program counter is loaded from 0xFFFA/0xFFFB.
pub open spec fn nmi_entered(s: CpuState) -> CpuState {
    let s1 = with_flags(s, PFlags { break_mode: false, interrupt: true, ..s.regs.p });
    let s2 = pushed_word(s1, s.regs.pc);
    let s3 = pushed(s2, flags_to_byte(s2.regs.p));
    with_pc(
        s3,
        word_of(
            cpu_map_read(s3.bus.cpu, s3.bus.regs, 0xFFFA),
            cpu_map_read(s3.bus.cpu, s3.bus.regs, 0xFFFB),
        ),
    )
}

/// Reset: the bytes at 0xFFFC and 0xFFFD are read into X and Y and the
/// program counter is loaded from them.
pub open spec fn after_reset(s: CpuState) -> CpuState {
    let l = read_value(s, 0xFFFC);
    let s1 = after_read(s, 0xFFFC);
    let h = read_value(s1, 0xFFFD);
    let s2 = after_read(s1, 0xFFFD);
    with_pc(with_y(with_x(s2, l), h), word_of(l, h))
}

/// Where the byte at CPU address `k` (0x8000 or above) comes from in a
/// program ROM of `len` bytes: a 0x4000-byte ROM is mirrored at 0xC000.
pub open spec fn prg_index(len: int, k: int) -> int {
    if len == 0x8000 || k < 0xC000 {
        k - 0x8000
    } else {
        k - 0xC000
    }
}

/// The memory after the program ROM was loaded into 0x8000..=0xFFFF.
pub open spec fn prg_loaded(mem: Seq<u8>, prg: Seq<u8>) -> Seq<u8> {
    Seq::new(
        mem.len(),
        |k: int|
            if k >= 0x8000 {
                prg[prg_index(prg.len() as int, k)]
            } else {
                mem[k]
            },
    )
}

/// What a push stores, the next pull gives back, and the stack pointer is
/// where it was.
pub proof fn lemma_push_then_pull(s: CpuState, d: u8)
    requires
        s.bus.cpu.mem.len() == 0x10000,
    ensures
        pull_value(pushed(s, d)) == d,
        pulled(pushed(s, d)).regs.s == s.regs.s,
        pulled(pushed(s, d)).bus.cpu.mem.len() == 0x10000,
{
    reveal(pushed);
    reveal(pulled);
    reveal(pull_value);
    assert((((s.regs.s - 1) % 256) + 1) % 256 == s.regs.s);
}

/// Pulling a pushed word gives the word back.
pub proof fn lemma_push_then_pull_word(s: CpuState, v: u16)
    requires
        s.bus.cpu.mem.len() == 0x10000,
    ensures
        pulled_word(pushed_word(s, v)).1 == v,
        pulled_word(pushed_word(s, v)).0.regs.s == s.regs.s,
{
    reveal(pushed);
    reveal(pulled);
    reveal(pull_value);
    let sp1 = ((s.regs.s - 1) % 256) as u8;
    let sp2 = ((sp1 - 1) % 256) as u8;
    let s1 = pushed(s, high_byte(v));
    let s2 = pushed(s1, low_byte(v));
    assert(s1.bus.cpu.mem == s.bus.cpu.mem.update(stack_of(s.regs.s), high_byte(v)));
    assert(s2.bus.cpu.mem == s1.bus.cpu.mem.update(stack_of(sp1), low_byte(v)));
    assert((sp2 + 1) % 256 == sp1);
    assert((sp1 + 1) % 256 == s.regs.s);
    assert(pull_value(s2) == low_byte(v));
    let s3 = pulled(s2);
    assert(s3.bus == s2.bus);
    assert(s3.regs.s == sp1);
    assert(pull_value(s3) == high_byte(v));
    assert(word_of(low_byte(v), high_byte(v)) == v);
}

/// The stack address of the stack pointer `sp`, as an index into memory.
pub open spec fn stack_of(sp: u8) -> int {
    0x100 + sp
}

/// A subroutine call followed by its return comes back to the byte after
/// the call's operand, with the stack pointer where it was.
pub proof fn lemma_jsr_then_rts(s: CpuState, addr: u16)
    requires
        s.bus.cpu.mem.len() == 0x10000,
        s.regs.pc >= 1,
    ensures
        after_rts(after_jsr(s, addr)).regs.pc == s.regs.pc,
        after_rts(after_jsr(s, addr)).regs.s == s.regs.s,
{
    reveal(after_jsr);
    reveal(after_rts);
    reveal(pulled);
    reveal(pull_value);
    let w = (s.regs.pc - 1) as u16;
    let t = pushed_word(s, w);
    lemma_push_then_pull_word(s, w);
    assert(pull_value(with_pc(t, addr)) == pull_value(t));
    assert(pulled(with_pc(t, addr)) == with_pc(pulled(t), addr));
    assert(pull_value(pulled(with_pc(t, addr))) == pull_value(pulled(t)));
    assert(pulled_word(with_pc(t, addr)).1 == pulled_word(t).1);
}

/// Entering a non-maskable interrupt and returning from it comes back to
/// the interrupted program counter and stack pointer, with the carry,
/// zero, decimal, overflow and negative flags as they were, interrupts
/// disabled, and the break and reserved flags clear.
#[verifier::spinoff_prover]
#[verifier::rlimit(40)]
pub proof fn lemma_nmi_then_rti(s: CpuState)
    requires
        s.bus.cpu.mem.len() == 0x10000,
    ensures
        after_rti(nmi_entered(s)).regs.pc == s.regs.pc,
        after_rti(nmi_entered(s)).regs.s == s.regs.s,
        after_rti(nmi_entered(s)).regs.p == (PFlags {
            break_mode: false,
            reserved: false,
            interrupt: true,
            ..s.regs.p
        }),
{
    reveal(pushed);
    reveal(pulled);
    reveal(pull_value);
    let pc = s.regs.pc;
    let s1 = with_flags(s, PFlags { break_mode: false, interrupt: true, ..s.regs.p });
    let sp0 = s.regs.s;
    let sp1 = ((sp0 - 1) % 256) as u8;
    let sp2 = ((sp1 - 1) % 256) as u8;
    let sp3 = ((sp2 - 1) % 256) as u8;
    let b = pushed(s1, high_byte(pc));
    let c = pushed(b, low_byte(pc));
    let f = flags_to_byte(c.regs.p);
    let d = pushed(c, f);
    assert(b.bus.cpu.mem == s.bus.cpu.mem.update(stack_of(sp0), high_byte(pc)));
    assert(c.bus.cpu.mem == b.bus.cpu.mem.update(stack_of(sp1), low_byte(pc)));
    assert(d.bus.cpu.mem == c.bus.cpu.mem.update(stack_of(sp2), f));
    assert((sp3 + 1) % 256 == sp2);
    assert((sp2 + 1) % 256 == sp1);
    assert((sp1 + 1) % 256 == sp0);
    let t = nmi_entered(s);
    assert(t.bus == d.bus && t.regs.s == sp3);
    assert(pull_value(t) == f);
    let u = pulled(t);
    assert(u.bus == d.bus && u.regs.s == sp2);
    assert(pull_value(u) == low_byte(pc));
    let v = pulled(u);
    assert(v.bus == d.bus && v.regs.s == sp1);
    assert(pull_value(v) == high_byte(pc));
    assert(pulled(v).regs.s == sp0);
    assert(word_of(low_byte(pc), high_byte(pc)) == pc);
    assert(pulled_word(u).1 == pc);
    assert(pulled_word(u).0.regs.s == sp0);
    let r = after_rti(t);
    assert(r == with_flags(with_pc(pulled_word(u).0, pulled_word(u).1), flags_from_byte(f))) by {
        reveal(after_rti);
    }
    lemma_status_read_then_load(c.regs.p);
}

/// ADC computes the sum: the accumulator and the carry out make up
/// `a + m + carry in`.
pub proof fn lemma_adc_sum(s: CpuState, m: u8)
    ensures
        added(s, m).regs.a + (if added(s, m).regs.p.carry {
            256int
        } else {
            0int
        }) == adc_sum(s.regs.a, m, s.regs.p.carry),
{
}

/// SBC computes the difference: the accumulator, less 256 when the carry
/// is clear, is `a - m - borrow in`.
pub proof fn lemma_sbc_difference(s: CpuState, m: u8)
    ensures
        subtracted(s, m).regs.a - (if subtracted(s, m).regs.p.carry {
            0int
        } else {
            256int
        }) == sbc_diff(s.regs.a, m, s.regs.p.carry),
{
}

/// CPX compares the X register, as it was before the instruction, with the
/// operand: carry when X is at least the operand, zero when they are equal,
/// negative when bit 7 of `X - operand` (mod 256) is set.  The registers
/// stay as they were.
pub proof fn lemma_cpx_compares_x(s: CpuState, addr: u16, m: AddrMode)
    ensures
        after_cpx(s, addr, m).regs.p.carry == (s.regs.x >= operand(s, addr, m)),
        after_cpx(s, addr, m).regs.p.zero == (s.regs.x == operand(s, addr, m)),
        after_cpx(s, addr, m).regs.p.negative == ((s.regs.x - operand(s, addr, m)) % 256 >= 0x80),
        after_cpx(s, addr, m).regs.p.overflow == s.regs.p.overflow,
        after_cpx(s, addr, m).regs.a == s.regs.a,
        after_cpx(s, addr, m).regs.x == s.regs.x,
        after_cpx(s, addr, m).regs.y == s.regs.y,
{
    reveal(after_cpx);
}

/// CPY compares the Y register, as it was before the instruction, with the
/// operand, and sets carry, zero and negative as CPX does for X.
pub proof fn lemma_cpy_compares_y(s: CpuState, addr: u16, m: AddrMode)
    ensures
        after_cpy(s, addr, m).regs.p.carry == (s.regs.y >= operand(s, addr, m)),
        after_cpy(s, addr, m).regs.p.zero == (s.regs.y == operand(s, addr, m)),
        after_cpy(s, addr, m).regs.p.negative == ((s.regs.y - operand(s, addr, m)) % 256 >= 0x80),
        after_cpy(s, addr, m).regs.p.overflow == s.regs.p.overflow,
        after_cpy(s, addr, m).regs.a == s.regs.a,
        after_cpy(s, addr, m).regs.x == s.regs.x,
        after_cpy(s, addr, m).regs.y == s.regs.y,
{
    reveal(after_cpy);
}

/// CMP compares the accumulator, as it was before the instruction, with the
/// operand, and sets carry, zero and negative as CPX does for X.
pub proof fn lemma_cmp_compares_a(s: CpuState, addr: u16, m: AddrMode)
    ensures
        after_cmp(s, addr, m).regs.p.carry == (s.regs.a >= operand(s, addr, m)),
        after_cmp(s, addr, m).regs.p.zero == (s.regs.a == operand(s, addr, m)),
        after_cmp(s, addr, m).regs.p.negative == ((s.regs.a - operand(s, addr, m)) % 256 >= 0x80),
        after_cmp(s, addr, m).regs.p.overflow == s.regs.p.overflow,
        after_cmp(s, addr, m).regs.a == s.regs.a,
        after_cmp(s, addr, m).regs.x == s.regs.x,
        after_cmp(s, addr, m).regs.y == s.regs.y,
{
    reveal(after_cmp);
}

} // verus!
