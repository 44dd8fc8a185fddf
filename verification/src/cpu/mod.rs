pub mod addressing;
pub mod instruction;
pub mod operator;
pub mod register;

use vstd::prelude::*;

use rustc_hash::{FxHashMap, FxHasher};
use std::hash::BuildHasherDefault;

use crate::bus::{bus_after_read, bus_read_value, bus_readable, Bus, BusView, Mapper};
use crate::nes::Nes;
use crate::util::combine_high_low;
use addressing::{
    addressed, addressed_addr, addressing_ok, counted_if, indexed, ind_pointer, mode_addr,
    mode_ok, mode_state, page_crossed, past_opcode, rel_base, rel_target, zp_word,
};
use instruction::{
    adc_overflow, adc_sum, after_adc, after_and, after_asl, after_bit, after_branch, after_brk,
    after_cmp, after_cpx, after_cpy, after_dec, after_eor, after_inc, after_jsr, after_lda,
    after_ldx, after_ldy, after_lsr, after_ora, after_rol, after_ror, after_rti, after_rts,
    after_sbc, brk_ok, carry_bit, compared, dec_ok, high_byte, inc_ok, inc_read, inc_value,
    kind_supported, lemma_byte_bits, low_byte, operand, operand_ok, operand_read, pushed_word, rmw_ok, sbc_diff,
    with_acc_result, run_ok, ran, step_ok, stepped, nmi_entered, after_reset, prg_loaded,
    prg_index,
};
use operator::{decode_operator, spec_operator, AddrMode, OpeKind, Operator};
use register::{flags_from_byte, flags_to_byte, PFlags, Register, RegisterView};

verus! {

#[verifier::external_type_specification]
#[verifier::external_body]
pub struct ExFxHasher(FxHasher);

#[verifier::external_type_specification]
#[verifier::external_body]
#[verifier::reject_recursive_types(H)]
pub struct ExBuildHasherDefault<H>(BuildHasherDefault<H>);

/// An instruction table keyed by opcode.
pub type OperatorTable = FxHashMap<u8, Operator>;

/// What an instruction table holds: the operator stored under each opcode.
pub uninterp spec fn operator_table(m: OperatorTable) -> Map<u8, Operator>;

/// `FxHashMap::default`: a map with no entries.
#[verifier::external_body]
fn operator_table_new() -> (m: OperatorTable)
    ensures
        operator_table(m).dom() == Set::<u8>::empty(),
{
    FxHashMap::default()
}

/// `HashMap::insert` on an instruction table: the opcode now maps to the
/// operator, every other entry stays.
#[verifier::external_body]
fn operator_table_insert(m: &mut OperatorTable, code: u8, op: Operator)
    ensures
        operator_table(*final(m)) == operator_table(*old(m)).insert(code, op),
{
    m.insert(code, op);
}

/// `HashMap::get` on an instruction table, the found operator copied out:
/// the operator stored under the opcode, if any.
#[verifier::external_body]
fn operator_table_get(m: &OperatorTable, code: u8) -> (r: Option<Operator>)
    ensures
        r == (if operator_table(*m).contains_key(code) {
            Some(operator_table(*m)[code])
        } else {
            None
        }),
{
    m.get(&code).copied()
}

/// The full instruction table: every opcode with its operator.
pub open spec fn full_operator_table() -> Map<u8, Operator> {
    Map::new(|code: u8| true, |code: u8| spec_operator(code))
}

/// The processor as plain values, but its instruction table.
pub struct CpuState {
    pub regs: RegisterView,
    pub bus: BusView,
    pub cycle: u16,
    pub total_cycle: i64,
}

/// The 6502 processor with its bus.
pub struct CPU {
    pub register: Register,
    pub operators: OperatorTable,
    pub bus: Bus,
    pub cycle: u16,
    pub total_cycle: i64,
}

impl View for CPU {
    type V = CpuState;

    open spec fn view(&self) -> CpuState {
        CpuState {
            regs: self.register@,
            bus: self.bus@,
            cycle: self.cycle,
            total_cycle: self.total_cycle,
        }
    }
}

/// The state with the registers replaced.
pub open spec fn with_regs(s: CpuState, r: RegisterView) -> CpuState {
    CpuState { regs: r, ..s }
}

/// The state with the status flags replaced.
pub open spec fn with_flags(s: CpuState, f: PFlags) -> CpuState {
    CpuState { regs: RegisterView { p: f, ..s.regs }, ..s }
}

/// Negative and zero flags set from a result byte.
pub open spec fn with_nz(s: CpuState, v: u8) -> CpuState {
    with_flags(s, PFlags { negative: v >= 0x80, zero: v == 0, ..s.regs.p })
}

pub open spec fn with_carry(s: CpuState, b: bool) -> CpuState {
    with_flags(s, PFlags { carry: b, ..s.regs.p })
}

pub open spec fn with_overflow(s: CpuState, b: bool) -> CpuState {
    with_flags(s, PFlags { overflow: b, ..s.regs.p })
}

pub open spec fn with_a(s: CpuState, v: u8) -> CpuState {
    with_regs(s, RegisterView { a: v, ..s.regs })
}

pub open spec fn with_x(s: CpuState, v: u8) -> CpuState {
    with_regs(s, RegisterView { x: v, ..s.regs })
}

pub open spec fn with_y(s: CpuState, v: u8) -> CpuState {
    with_regs(s, RegisterView { y: v, ..s.regs })
}

pub open spec fn with_s(s: CpuState, v: u8) -> CpuState {
    with_regs(s, RegisterView { s: v, ..s.regs })
}

pub open spec fn with_pc(s: CpuState, v: u16) -> CpuState {
    with_regs(s, RegisterView { pc: v, ..s.regs })
}

/// The state after the bus answered a read of `a`.
pub open spec fn after_read(s: CpuState, a: u16) -> CpuState {
    CpuState { bus: bus_after_read(s.bus, a), ..s }
}

/// The byte a read of `a` gives.
pub open spec fn read_value(s: CpuState, a: u16) -> u8 {
    bus_read_value(s.bus, a)
}

/// The cycle counters can take `n` more cycles.
pub open spec fn can_count(s: CpuState, n: int) -> bool {
    s.cycle + n <= u16::MAX && s.total_cycle + n <= i64::MAX
}

/// The state after `n` more cycles.
pub open spec fn counted(s: CpuState, n: int) -> CpuState {
    CpuState { cycle: (s.cycle + n) as u16, total_cycle: (s.total_cycle + n) as i64, ..s }
}

impl CPU {
    pub open spec fn wf(&self) -> bool {
        self.bus.wf()
    }

    pub open spec fn ops(&self) -> Map<u8, Operator> {
        operator_table(self.operators)
    }

    pub fn new(nes: &Nes) -> (r: Self)
        ensures
            r.wf(),
            r@.regs == Register::initial(),
            r@.cycle == 0,
            r@.total_cycle == 0,
            r.ops().dom() == Set::<u8>::empty(),
            r.bus@.regs == crate::bus::cpu_map::PpuRegister::initial(),
            forall|i: int| 0 <= i < 0x10000 ==> r@.bus.cpu.mem[i] == 0,
    {
        let register = Register::default();
        let operators = operator_table_new();
        let bus = Bus::new(nes);

        Self { register, operators, bus, cycle: 0, total_cycle: 0 }
    }

    /// Fills the instruction table with every opcode.
    pub fn prepare_operators(&mut self)
        ensures
            final(self).ops() == full_operator_table(),
            final(self)@ == old(self)@,
            final(self).wf() == old(self).wf(),
    {
        let mut operators = operator_table_new();
        let mut code: u16 = 0;
        assert(operator_table(operators) =~= Map::new(|k: u8| k < code, |k: u8| spec_operator(k)));
        while code < 256
            invariant
                code <= 256,
                operator_table(operators) == Map::new(
                    |k: u8| k < code,
                    |k: u8| spec_operator(k),
                ),
            decreases 256 - code,
        {
            let c = code as u8;
            operator_table_insert(&mut operators, c, decode_operator(c));
            proof {
                assert(operator_table(operators) =~= Map::new(
                    |k: u8| k < code + 1,
                    |k: u8| spec_operator(k),
                ));
            }
            code += 1;
        }
        assert(operator_table(operators) =~= full_operator_table());
        self.operators = operators;
    }

    fn inc_cycle(&mut self, data: u8)
        requires
            can_count(old(self)@, data as int),
        ensures
            final(self)@ == counted(old(self)@, data as int),
            final(self).ops() == old(self).ops(),
            final(self).bus == old(self).bus,
    {
        self.cycle += data as u16;
        self.total_cycle += data as i64;
    }

    fn set_break_mode(&mut self, data: bool)
        ensures
            final(self)@ == with_flags(old(self)@, PFlags { break_mode: data, ..old(self)@.regs.p }),
            final(self).ops() == old(self).ops(),
            final(self).bus == old(self).bus,
    {
        self.register.mut_access_p().set_break_mode(data);
    }

    fn get_break_mode(&self) -> (r: bool)
        ensures
            r == self@.regs.p.break_mode,
    {
        self.register.access_p().get_break_mode()
    }

    pub fn set_interrupt(&mut self, data: bool)
        ensures
            final(self)@ == with_flags(old(self)@, PFlags { interrupt: data, ..old(self)@.regs.p }),
            final(self).ops() == old(self).ops(),
            final(self).bus == old(self).bus,
    {
        self.register.mut_access_p().set_interrupt(data);
    }

    fn set_decimal(&mut self, data: bool)
        ensures
            final(self)@ == with_flags(old(self)@, PFlags { decimal: data, ..old(self)@.regs.p }),
            final(self).ops() == old(self).ops(),
            final(self).bus == old(self).bus,
    {
        self.register.mut_access_p().set_decimal(data);
    }

    pub fn get_interrupt(&self) -> (r: bool)
        ensures
            r == self@.regs.p.interrupt,
    {
        self.register.access_p().get_interrupt()
    }

    fn set_negative(&mut self, data: bool)
        ensures
            final(self)@ == with_flags(old(self)@, PFlags { negative: data, ..old(self)@.regs.p }),
            final(self).ops() == old(self).ops(),
            final(self).bus == old(self).bus,
    {
        self.register.mut_access_p().set_negative(data);
    }

    pub fn get_negative(&self) -> (r: bool)
        ensures
            r == self@.regs.p.negative,
    {
        self.register.access_p().get_negative()
    }

    fn set_overflow(&mut self, data: bool)
        ensures
            final(self)@ == with_overflow(old(self)@, data),
            final(self).ops() == old(self).ops(),
            final(self).bus == old(self).bus,
    {
        self.register.mut_access_p().set_overflow(data);
    }

    pub fn get_overflow(&self) -> (r: bool)
        ensures
            r == self@.regs.p.overflow,
    {
        self.register.access_p().get_overflow()
    }

    fn set_zero(&mut self, data: bool)
        ensures
            final(self)@ == with_flags(old(self)@, PFlags { zero: data, ..old(self)@.regs.p }),
            final(self).ops() == old(self).ops(),
            final(self).bus == old(self).bus,
    {
        self.register.mut_access_p().set_zero(data);
    }

    pub fn get_zero(&self) -> (r: bool)
        ensures
            r == self@.regs.p.zero,
    {
        self.register.access_p().get_zero()
    }

    fn set_nz(&mut self, data: u8)
        ensures
            final(self)@ == with_nz(old(self)@, data),
            final(self).ops() == old(self).ops(),
            final(self).bus == old(self).bus,
    {
        self.set_negative(data >= 0x80);
        self.set_zero(data == 0);
    }

    fn set_carry(&mut self, data: bool)
        ensures
            final(self)@ == with_carry(old(self)@, data),
            final(self).ops() == old(self).ops(),
            final(self).bus == old(self).bus,
    {
        self.register.mut_access_p().set_carry(data)
    }

    pub fn get_carry(&self) -> (r: bool)
        ensures
            r == self@.regs.p.carry,
    {
        self.register.access_p().get_carry()
    }

    pub fn set_a(&mut self, data: u8)
        ensures
            final(self)@ == with_a(old(self)@, data),
            final(self).ops() == old(self).ops(),
            final(self).bus == old(self).bus,
    {
        self.register.set_a(data);
    }

    pub fn get_a(&self) -> (r: u8)
        ensures
            r == self@.regs.a,
    {
        self.register.get_a()
    }

    pub fn set_x(&mut self, data: u8)
        ensures
            final(self)@ == with_x(old(self)@, data),
            final(self).ops() == old(self).ops(),
            final(self).bus == old(self).bus,
    {
        self.register.set_x(data);
    }

    pub fn get_x(&self) -> (r: u8)
        ensures
            r == self@.regs.x,
    {
        self.register.get_x()
    }

    pub fn set_y(&mut self, data: u8)
        ensures
            final(self)@ == with_y(old(self)@, data),
            final(self).ops() == old(self).ops(),
            final(self).bus == old(self).bus,
    {
        self.register.set_y(data);
    }

    pub fn get_y(&self) -> (r: u8)
        ensures
            r == self@.regs.y,
    {
        self.register.get_y()
    }

    pub fn set_s(&mut self, data: u8)
        ensures
            final(self)@ == with_s(old(self)@, data),
            final(self).ops() == old(self).ops(),
            final(self).bus == old(self).bus,
    {
        self.register.set_s(data);
    }

    pub fn get_s(&self) -> (r: u8)
        ensures
            r == self@.regs.s,
    {
        self.register.get_s()
    }

    pub fn set_p(&mut self, data: u8)
        ensures
            final(self)@ == with_flags(old(self)@, flags_from_byte(data)),
            final(self).ops() == old(self).ops(),
            final(self).bus == old(self).bus,
    {
        self.register.set_p(data);
    }

    /// Moves the stack pointer down by `data`, wrapping.
    pub fn dec_p(&mut self, data: u8)
        ensures
            final(self)@ == with_s(old(self)@, ((old(self)@.regs.s - data) % 256) as u8),
            final(self).ops() == old(self).ops(),
            final(self).bus == old(self).bus,
    {
        let s = self.register.get_s().wrapping_sub(data);
        self.register.set_s(s);
    }

    pub fn get_p(&self) -> (r: u8)
        ensures
            r == flags_to_byte(self@.regs.p),
    {
        self.register.get_p()
    }

    pub fn set_pc(&mut self, data: u16)
        ensures
            final(self)@ == with_pc(old(self)@, data),
            final(self).ops() == old(self).ops(),
            final(self).bus == old(self).bus,
    {
        self.register.set_pc(data);
    }

    pub fn get_pc(&self) -> (r: u16)
        ensures
            r == self@.regs.pc,
    {
        self.register.get_pc()
    }

    pub fn inc_pc(&mut self, data: u16)
        requires
            old(self)@.regs.pc + data <= u16::MAX,
        ensures
            final(self)@ == with_pc(old(self)@, (old(self)@.regs.pc + data) as u16),
            final(self).ops() == old(self).ops(),
            final(self).bus == old(self).bus,
    {
        self.register.inc_pc(data);
    }

    pub fn clear_cycle(&mut self)
        ensures
            final(self)@ == (CpuState { cycle: 0, ..old(self)@ }),
            final(self).ops() == old(self).ops(),
            final(self).bus == old(self).bus,
    {
        self.cycle = 0;
    }
}

/// The opcode or operand byte at the program counter.
pub open spec fn fetch_value(s: CpuState) -> u8 {
    read_value(s, s.regs.pc)
}

/// The state after the byte at the program counter was read.
pub open spec fn fetched(s: CpuState) -> CpuState {
    after_read(s, s.regs.pc)
}

/// The address after the program counter, wrapping.
pub open spec fn next_pc(s: CpuState) -> u16 {
    ((s.regs.pc + 1) % 0x10000) as u16
}

/// The byte at the program counter and the byte after it can be read.
pub open spec fn lh_fetch_ok(s: CpuState) -> bool {
    bus_readable(s.bus, s.regs.pc) && bus_readable(fetched(s).bus, next_pc(s))
}

/// The state after the two bytes at the program counter were read.
pub open spec fn lh_fetched(s: CpuState) -> CpuState {
    after_read(fetched(s), next_pc(s))
}

/// The 16-bit operand at the program counter, low byte first.
pub open spec fn lh_value(s: CpuState) -> u16 {
    crate::util::word_of(fetch_value(s), read_value(fetched(s), next_pc(s)))
}

/// The stack address the stack pointer points at.
pub open spec fn stack_addr(sp: u8) -> u16 {
    (0x100 + sp) as u16
}

/// The sprite memory after the four bytes `b` are stored at the slot that
/// the OAM byte address `target` falls in; past the last slot they are
/// appended.
pub open spec fn sprites_put(
    s: Seq<crate::ppu::oam::SpriteInfo>,
    b: Seq<u8>,
    target: u8,
) -> Seq<crate::ppu::oam::SpriteInfo> {
    let sprite = crate::ppu::oam::sprite_of_bytes(b[0], b[1], b[2], b[3]);
    if (target / 4) < s.len() {
        s.update((target / 4) as int, sprite)
    } else {
        s.push(sprite)
    }
}

/// The bus after a write to OAMDATA: the byte joins the OAM buffer, and
/// when four bytes have gathered they become the sprite at the OAM address.
pub open spec fn oam_pushed(b: BusView) -> BusView {
    let buf = b.oam_buf.push(bus_read_value(b, 0x2004));
    if buf.len() == 4 {
        BusView {
            primary_oam: sprites_put(b.primary_oam, buf, bus_read_value(b, 0x2003)),
            oam_buf: Seq::empty(),
            ..b
        }
    } else {
        BusView { oam_buf: buf, ..b }
    }
}

/// The bus and the bytes after `n` DMA reads from page `page`.
pub open spec fn dma_reads(b: BusView, page: u8, n: nat) -> (BusView, Seq<u8>)
    decreases n,
{
    if n == 0 {
        (b, Seq::empty())
    } else {
        let (b1, bytes) = dma_reads(b, page, (n - 1) as nat);
        let a = crate::util::word_of((n - 1) as u8, page);
        (bus_after_read(b1, a), bytes.push(bus_read_value(b1, a)))
    }
}

/// Every one of the first `n` DMA reads from page `page` can be made.
pub open spec fn dma_ok(b: BusView, page: u8, n: nat) -> bool
    decreases n,
{
    if n == 0 {
        true
    } else {
        dma_ok(b, page, (n - 1) as nat) && bus_readable(
            dma_reads(b, page, (n - 1) as nat).0,
            crate::util::word_of((n - 1) as u8, page),
        )
    }
}

/// The cycle count after an OAM DMA: 513 more, rounded up to even.
pub open spec fn dma_cycle(c: u16) -> u16 {
    let c1 = c + 513;
    (if c1 % 2 != 0 {
        c1 + 1
    } else {
        c1
    }) as u16
}

/// The state after an OAM DMA from the page written to 0x4014: 255 bytes
/// of the page are read and their first 252 become 63 sprites.
#[verifier::opaque]
pub open spec fn dma_done(s: CpuState) -> CpuState {
    let page = bus_read_value(s.bus, 0x4014);
    let (b1, bytes) = dma_reads(s.bus, page, 255);
    CpuState {
        cycle: dma_cycle(s.cycle),
        bus: BusView {
            primary_oam: Seq::new(
                63,
                |i: int|
                    crate::ppu::oam::sprite_of_bytes(
                        bytes[4 * i],
                        bytes[4 * i + 1],
                        bytes[4 * i + 2],
                        bytes[4 * i + 3],
                    ),
            ),
            ..b1
        },
        ..s
    }
}

/// An OAM DMA can run.
pub open spec fn dma_can_run(s: CpuState) -> bool {
    s.cycle + 514 <= u16::MAX && dma_ok(s.bus, bus_read_value(s.bus, 0x4014), 255)
}

/// A CPU write of `d` to `a` can be made.
#[verifier::opaque]
pub open spec fn write_ok(s: CpuState, a: u16, d: u8) -> bool {
    &&& crate::bus::bus_writable(s.bus, a)
    &&& a == 0x4014 ==> dma_can_run(
        CpuState { bus: crate::bus::bus_written(s.bus, a, d), ..s },
    )
}

/// The state after a CPU write of `d` to `a`: the bus takes the write; a
/// write to OAMDATA also feeds the OAM buffer, a write to 0x4014 runs the
/// OAM DMA.
#[verifier::opaque]
pub open spec fn written(s: CpuState, a: u16, d: u8) -> CpuState {
    let s1 = CpuState { bus: crate::bus::bus_written(s.bus, a, d), ..s };
    if a == 0x2004 {
        CpuState { bus: oam_pushed(s1.bus), ..s1 }
    } else if a == 0x4014 {
        dma_done(s1)
    } else {
        s1
    }
}

/// The state after `d` is pushed: written at the stack pointer, which then
/// moves down.
#[verifier::opaque]
pub open spec fn pushed(s: CpuState, d: u8) -> CpuState {
    let s1 = with_s(s, ((s.regs.s - 1) % 256) as u8);
    CpuState { bus: crate::bus::bus_written(s1.bus, stack_addr(s.regs.s), d), ..s1 }
}

/// The stack page is plain memory: a write there can always be made and
/// only stores the byte.
pub proof fn lemma_stack_write(s: CpuState, sp: u8, d: u8)
    ensures
        write_ok(s, stack_addr(sp), d),
        written(s, stack_addr(sp), d) == (CpuState {
            bus: crate::bus::bus_written(s.bus, stack_addr(sp), d),
            ..s
        }),
{
    reveal(write_ok);
    reveal(written);
}

/// The byte a pull gives: the one above the stack pointer.
#[verifier::opaque]
pub open spec fn pull_value(s: CpuState) -> u8 {
    read_value(s, stack_addr(((s.regs.s + 1) % 256) as u8))
}

/// The state after a pull: the stack pointer moves up and the byte it then
/// points at is read.
#[verifier::opaque]
pub open spec fn pulled(s: CpuState) -> CpuState {
    let sp = ((s.regs.s + 1) % 256) as u8;
    after_read(with_s(s, sp), stack_addr(sp))
}

impl CPU {
    pub fn fetch_register(&mut self) -> (r: u8)
        requires
            old(self).wf(),
            bus_readable(old(self)@.bus, old(self)@.regs.pc),
        ensures
            r == fetch_value(old(self)@),
            final(self)@ == fetched(old(self)@),
            final(self).ops() == old(self).ops(),
            final(self).wf(),
    {
        self.bus.addr(self.get_pc())
    }

    pub fn fetch_lh_register(&mut self) -> (r: (u8, u8))
        requires
            old(self).wf(),
            lh_fetch_ok(old(self)@),
        ensures
            r.0 == fetch_value(old(self)@),
            r.1 == read_value(fetched(old(self)@), next_pc(old(self)@)),
            final(self)@ == lh_fetched(old(self)@),
            final(self).ops() == old(self).ops(),
            final(self).wf(),
    {
        let l_data = self.fetch_register();
        let h_data = self.fetch_next_register();
        (l_data, h_data)
    }

    pub fn fetch_next_register(&mut self) -> (r: u8)
        requires
            old(self).wf(),
            bus_readable(old(self)@.bus, next_pc(old(self)@)),
        ensures
            r == read_value(old(self)@, next_pc(old(self)@)),
            final(self)@ == after_read(old(self)@, next_pc(old(self)@)),
            final(self).ops() == old(self).ops(),
            final(self).wf(),
    {
        let pc = self.get_pc().wrapping_add(1);
        self.bus.addr(pc)
    }

    fn fetch_next_next_register(&mut self) -> (r: u8)
        requires
            old(self).wf(),
            bus_readable(old(self)@.bus, ((old(self)@.regs.pc + 2) % 0x10000) as u16),
        ensures
            r == read_value(old(self)@, ((old(self)@.regs.pc + 2) % 0x10000) as u16),
            final(self)@ == after_read(old(self)@, ((old(self)@.regs.pc + 2) % 0x10000) as u16),
            final(self).ops() == old(self).ops(),
            final(self).wf(),
    {
        let pc = self.get_pc().wrapping_add(2);
        self.bus.addr(pc)
    }

    /// Skips an opcode that the table does not hold: the program counter
    /// moves on by itself plus one.
    fn undef(&mut self)
        requires
            old(self)@.regs.pc + (old(self)@.regs.pc + 1) % 0x10000 <= u16::MAX,
        ensures
            final(self)@ == with_pc(
                old(self)@,
                (old(self)@.regs.pc + (old(self)@.regs.pc + 1) % 0x10000) as u16,
            ),
            final(self).ops() == old(self).ops(),
            final(self).bus == old(self).bus,
    {
        let pc = self.get_pc();
        self.inc_pc(pc.wrapping_add(1))
    }

    pub fn push_stack(&mut self, data: u8)
        requires
            old(self).wf(),
        ensures
            final(self)@ == pushed(old(self)@, data),
            final(self).ops() == old(self).ops(),
            final(self).wf(),
    {
        proof {
            reveal(pushed);
        }
        let l_data = self.get_s() as u16;
        let s = self.get_s().wrapping_sub(1);
        self.set_s(s);
        proof {
            crate::util::lemma_shift_high_byte(1);
        }
        let map = l_data.wrapping_add(1 << 8);
        proof {
            lemma_stack_write(self@, old(self)@.regs.s, data);
        }
        self.bus_set(map, data);
    }

    pub fn pull_stack(&mut self) -> (r: u8)
        requires
            old(self).wf(),
        ensures
            r == pull_value(old(self)@),
            final(self)@ == pulled(old(self)@),
            final(self).ops() == old(self).ops(),
            final(self).wf(),
    {
        proof {
            reveal(pulled);
            reveal(pull_value);
        }
        let l_data = self.get_s().wrapping_add(1);
        self.set_s(l_data);
        let h_data: u16 = 0x100;
        let map = (l_data as u16).wrapping_add(h_data);
        self.bus.addr(map)
    }

    fn push_oam(&mut self)
        requires
            old(self).wf(),
        ensures
            final(self)@ == (CpuState { bus: oam_pushed(old(self)@.bus), ..old(self)@ }),
            final(self).ops() == old(self).ops(),
            final(self).wf(),
    {
        let data = self.bus.addr(0x2004);
        self.bus.ppu.oam_buf.push(data);
        if self.bus.ppu.oam_buf.len() == 4 {
            let target = self.bus.addr(0x2003);
            let data = &self.bus.ppu.oam_buf;
            self.bus.ppu.primary_oam.put_sprite_info(data, target);
            self.bus.ppu.oam_buf = vec![];
        }
    }

    fn set_oam(&mut self)
        requires
            old(self).wf(),
            dma_can_run(old(self)@),
        ensures
            final(self)@ == dma_done(old(self)@),
            final(self).ops() == old(self).ops(),
            final(self).wf(),
    {
        self.cycle += 513;
        if self.cycle % 2 != 0 {
            self.cycle += 1;
        }
        let mut sprite_infos: Vec<u8> = vec![];
        let ghost b0 = self.bus@;
        proof {
            reveal(dma_done);
        }

        let r = self.bus.addr(0x4014);
        let ghost page = r;
        for l in 0..0xff
            invariant
                self.wf(),
                self.ops() == old(self).ops(),
                dma_ok(b0, page, 255),
                page == r,
                page == bus_read_value(b0, 0x4014),
                (self.bus@, sprite_infos@) == dma_reads(b0, page, l as nat),
                self.cycle == dma_cycle(old(self)@.cycle),
                self.total_cycle == old(self)@.total_cycle,
                self.register == old(self).register,
        {
            proof {
                lemma_dma_ok_prefix(b0, page, 255, (l + 1) as nat);
                lemma_dma_step(b0, page, l as nat);
            }
            let a = crate::util::combine_high_low(l, r);
            let data = self.bus.addr(a);
            sprite_infos.push(data);
        }
        proof {
            lemma_dma_reads_len(b0, page, 255);
        }
        self.bus.ppu.primary_oam.set_sprite_infos(sprite_infos);
    }

    pub fn bus_set(&mut self, addr: u16, data: u8)
        requires
            old(self).wf(),
            write_ok(old(self)@, addr, data),
        ensures
            final(self)@ == written(old(self)@, addr, data),
            final(self).ops() == old(self).ops(),
            final(self).wf(),
    {
        proof {
            reveal(write_ok);
            reveal(written);
        }
        self.bus.set(addr, data);
        match addr {
            0x2004 => self.push_oam(),
            0x4014 => self.set_oam(),
            _ => (),
        }
    }
}

impl CPU {
    /// Takes one more cycle when an indexed address crossed a page.
    fn inc_if_page_accrossed(&mut self, data: bool)
        requires
            data ==> can_count(old(self)@, 1),
        ensures
            final(self)@ == counted_if(old(self)@, data),
            final(self).ops() == old(self).ops(),
            final(self).bus == old(self).bus,
    {
        if data {
            self.inc_cycle(1);
        }
    }

    fn acc(&mut self) -> (r: u16)
        ensures
            r == mode_addr(old(self)@, AddrMode::Acc),
            *final(self) == *old(self),
    {
        let a = self.get_a() as u16;
        a as u16
    }

    fn imm(&mut self) -> (r: u16)
        requires
            old(self).wf(),
            mode_ok(old(self)@, AddrMode::Imm),
        ensures
            r == mode_addr(old(self)@, AddrMode::Imm),
            final(self)@ == mode_state(old(self)@, AddrMode::Imm),
            final(self).ops() == old(self).ops(),
            final(self).wf(),
    {
        let data = self.fetch_register();
        data as u16
    }

    fn zp(&mut self) -> (r: u16)
        requires
            old(self).wf(),
            mode_ok(old(self)@, AddrMode::Zp),
        ensures
            r == mode_addr(old(self)@, AddrMode::Zp),
            final(self)@ == mode_state(old(self)@, AddrMode::Zp),
            final(self).ops() == old(self).ops(),
            final(self).wf(),
    {
        let data = self.fetch_register() as u16;
        data
    }

    fn zpx(&mut self) -> (r: u16)
        requires
            old(self).wf(),
            mode_ok(old(self)@, AddrMode::ZpX),
        ensures
            r == mode_addr(old(self)@, AddrMode::ZpX),
            final(self)@ == mode_state(old(self)@, AddrMode::ZpX),
            final(self).ops() == old(self).ops(),
            final(self).wf(),
    {
        let data = self.fetch_register();
        let data = data.wrapping_add(self.get_x());
        data as u16
    }

    fn zpy(&mut self) -> (r: u16)
        requires
            old(self).wf(),
            mode_ok(old(self)@, AddrMode::ZpY),
        ensures
            r == mode_addr(old(self)@, AddrMode::ZpY),
            final(self)@ == mode_state(old(self)@, AddrMode::ZpY),
            final(self).ops() == old(self).ops(),
            final(self).wf(),
    {
        let data = self.fetch_register();
        let data = data.wrapping_add(self.get_y());
        data as u16
    }

    fn abs(&mut self) -> (r: u16)
        requires
            old(self).wf(),
            mode_ok(old(self)@, AddrMode::Abs),
        ensures
            r == mode_addr(old(self)@, AddrMode::Abs),
            final(self)@ == mode_state(old(self)@, AddrMode::Abs),
            final(self).ops() == old(self).ops(),
            final(self).wf(),
    {
        let (l_data, h_data) = self.fetch_lh_register();
        combine_high_low(l_data, h_data)
    }

    fn abs_x(&mut self) -> (r: u16)
        requires
            old(self).wf(),
            mode_ok(old(self)@, AddrMode::AbsX),
        ensures
            r == mode_addr(old(self)@, AddrMode::AbsX),
            final(self)@ == mode_state(old(self)@, AddrMode::AbsX),
            final(self).ops() == old(self).ops(),
            final(self).wf(),
    {
        let (l_data, h_data) = self.fetch_lh_register();
        let x = self.get_x() as u16;
        let data = combine_high_low(l_data, h_data);
        let h1 = data & 0xF00;
        let c = data as u32 + x as u32 > u16::MAX as u32;
        let data = data.wrapping_add(x);
        let h2 = data & 0xF00;
        let b = (h1 | h2) != h1;
        self.inc_if_page_accrossed(b);
        if c {
            self.set_carry(c);
        }
        data
    }

    fn abs_y(&mut self) -> (r: u16)
        requires
            old(self).wf(),
            mode_ok(old(self)@, AddrMode::AbsY),
        ensures
            r == mode_addr(old(self)@, AddrMode::AbsY),
            final(self)@ == mode_state(old(self)@, AddrMode::AbsY),
            final(self).ops() == old(self).ops(),
            final(self).wf(),
    {
        let (l_data, h_data) = self.fetch_lh_register();
        let y = self.get_y() as u16;
        let data = combine_high_low(l_data, h_data);
        let h1 = data & 0xF00;
        let c = data as u32 + y as u32 > u16::MAX as u32;
        let data = data.wrapping_add(y);
        let h2 = data & 0xF00;
        let b = (h1 | h2) != h1;
        self.inc_if_page_accrossed(b);
        if c {
            self.set_carry(c);
        }
        data
    }

    fn rel(&mut self) -> (r: u16)
        requires
            old(self).wf(),
            mode_ok(old(self)@, AddrMode::Rel),
        ensures
            r == mode_addr(old(self)@, AddrMode::Rel),
            final(self)@ == mode_state(old(self)@, AddrMode::Rel),
            final(self).ops() == old(self).ops(),
            final(self).wf(),
    {
        let l_data = self.get_pc() + 1;
        let h_data = self.fetch_register() as u16;
        if h_data < 0x80 {
            (l_data + h_data) as u16
        } else {
            (l_data + h_data - 256) as u16
        }
    }

    #[verifier::spinoff_prover]
    #[verifier::rlimit(60)]
    fn ind_x(&mut self) -> (r: u16)
        requires
            old(self).wf(),
            mode_ok(old(self)@, AddrMode::IndX),
        ensures
            r == mode_addr(old(self)@, AddrMode::IndX),
            final(self)@ == mode_state(old(self)@, AddrMode::IndX),
            final(self).ops() == old(self).ops(),
            final(self).wf(),
    {
        let l_data = self.fetch_register();
        let r_data = self.get_x();
        let map = l_data.wrapping_add(r_data);
        let ghost after_fetch = self@;
        assert(after_fetch.bus.cpu == old(self)@.bus.cpu);
        let (l_data, h_data) = self.bus.cpu_bus.lh_addr(map as u16);
        assert(self@ == after_fetch);
        combine_high_low(l_data, h_data)
    }

    #[verifier::spinoff_prover]
    #[verifier::rlimit(30)]
    fn ind_y(&mut self) -> (r: u16)
        requires
            old(self).wf(),
            mode_ok(old(self)@, AddrMode::IndY),
        ensures
            r == mode_addr(old(self)@, AddrMode::IndY),
            final(self)@ == mode_state(old(self)@, AddrMode::IndY),
            final(self).ops() == old(self).ops(),
            final(self).wf(),
    {
        let addr = self.fetch_register();
        let ghost after_fetch = self@;
        assert(after_fetch.bus.cpu == old(self)@.bus.cpu);
        let (l_data, h_data) = self.bus.cpu_bus.lh_addr(addr as u16);
        assert(self@ == after_fetch);
        let r_data = self.get_y() as u16;
        let l_data = combine_high_low(l_data as u8, h_data as u8);
        let h1_data = l_data & 0xF00;
        let t = l_data.wrapping_add(r_data);
        let h2_data = t & 0xF00;
        let b = (h1_data | h2_data) != h1_data;
        self.inc_if_page_accrossed(b);
        t
    }

    fn ind(&mut self) -> (r: u16)
        requires
            old(self).wf(),
            mode_ok(old(self)@, AddrMode::Ind),
        ensures
            r == mode_addr(old(self)@, AddrMode::Ind),
            final(self)@ == mode_state(old(self)@, AddrMode::Ind),
            final(self).ops() == old(self).ops(),
            final(self).wf(),
    {
        let (l_data, h_data) = self.fetch_lh_register();
        let addr = combine_high_low(l_data, h_data);
        let (l_data, h_data) = self.bus.cpu_bus.lh_ignore_overflowing_addr(addr);
        combine_high_low(l_data, h_data)
    }

    fn nop(&mut self) -> (r: u16)
        ensures
            r == mode_addr(old(self)@, AddrMode::Nop),
            *final(self) == *old(self),
    {
        0
    }

    /// Finds the operand address of the mode, the program counter on the
    /// first operand byte.
    fn find_operand(&mut self, addr_mode: &AddrMode) -> (r: u16)
        requires
            old(self).wf(),
            mode_ok(old(self)@, *addr_mode),
        ensures
            r == mode_addr(old(self)@, *addr_mode),
            final(self)@ == mode_state(old(self)@, *addr_mode),
            final(self).ops() == old(self).ops(),
            final(self).wf(),
    {
        match addr_mode {
            AddrMode::Impl => 0,
            AddrMode::Acc => self.acc(),
            AddrMode::Imm => self.imm(),
            AddrMode::Zp => self.zp(),
            AddrMode::ZpX => self.zpx(),
            AddrMode::ZpY => self.zpy(),
            AddrMode::Abs => self.abs(),
            AddrMode::AbsX => self.abs_x(),
            AddrMode::AbsY => self.abs_y(),
            AddrMode::Rel => self.rel(),
            AddrMode::IndX => self.ind_x(),
            AddrMode::IndY => self.ind_y(),
            AddrMode::Ind => self.ind(),
            AddrMode::Nop => self.nop(),
        }
    }

    /// Moves past the opcode, finds the operand address of the mode, and
    /// moves the program counter past the operand.
    pub fn ex_addr_mode(&mut self, addr_mode: &AddrMode) -> (r: u16)
        requires
            old(self).wf(),
            addressing_ok(old(self)@, *addr_mode),
        ensures
            r == addressed_addr(old(self)@, *addr_mode),
            final(self)@ == addressed(old(self)@, *addr_mode),
            final(self).ops() == old(self).ops(),
            final(self).wf(),
    {
        self.inc_pc(1);
        let addr = self.find_operand(addr_mode);
        proof {
            addressing::lemma_mode_state_keeps_pc(past_opcode(old(self)@), *addr_mode);
        }
        match addr_mode {
            AddrMode::Acc | AddrMode::Impl | AddrMode::Nop => (),
            AddrMode::Imm
            | AddrMode::Zp
            | AddrMode::ZpX
            | AddrMode::ZpY
            | AddrMode::Rel
            | AddrMode::IndX
            | AddrMode::IndY => self.inc_pc(1),
            AddrMode::Abs | AddrMode::AbsX | AddrMode::AbsY | AddrMode::Ind => self.inc_pc(2),
        }

        addr
    }
}

} // verus!

verus! {

impl CPU {
    /// The operand of an instruction: the address itself in the immediate
    /// mode, else the byte read from it.
    fn get_addr_for_mixed_imm_mode(&mut self, addr: u16, addr_mode: &AddrMode) -> (r: u16)
        requires
            old(self).wf(),
            operand_ok(old(self)@, addr, *addr_mode),
        ensures
            r as u8 == operand(old(self)@, addr, *addr_mode),
            *addr_mode != AddrMode::Imm ==> r < 256,
            final(self)@ == operand_read(old(self)@, addr, *addr_mode),
            final(self).ops() == old(self).ops(),
            final(self).wf(),
    {
        let imm = matches!(addr_mode, AddrMode::Imm);
        if imm {
            addr
        } else {
            self.bus.addr(addr) as u16
        }
    }

    /// The operand as a byte.
    fn operand_byte(&mut self, addr: u16, addr_mode: &AddrMode) -> (r: u8)
        requires
            old(self).wf(),
            operand_ok(old(self)@, addr, *addr_mode),
        ensures
            r == operand(old(self)@, addr, *addr_mode),
            final(self)@ == operand_read(old(self)@, addr, *addr_mode),
            final(self).ops() == old(self).ops(),
            final(self).wf(),
    {
        self.get_addr_for_mixed_imm_mode(addr, addr_mode) as u8
    }

    /// Adds with carry and sets the carry and overflow flags.
    fn sign_plus(&mut self, l_data: u8, r_data: u8) -> (r: u8)
        ensures
            r == (adc_sum(l_data, r_data, old(self)@.regs.p.carry) % 256) as u8,
            final(self)@ == with_overflow(
                with_carry(old(self)@, adc_sum(l_data, r_data, old(self)@.regs.p.carry) > 255),
                adc_overflow(l_data, r_data, r),
            ),
            final(self).ops() == old(self).ops(),
            final(self).bus == old(self).bus,
    {
        proof {
            lemma_byte_bits(l_data);
            lemma_byte_bits(r_data);
        }
        let is_l_data_plus = (l_data & 0b10000000) == 0;
        let is_r_data_plus = (r_data & 0b10000000) == 0;

        let c1 = l_data as u16 + r_data as u16 > u8::MAX as u16;
        let data = l_data.wrapping_add(r_data);
        let carry: u8 = if self.get_carry() {
            1
        } else {
            0
        };
        let c2 = data as u16 + carry as u16 > u8::MAX as u16;
        let data = data.wrapping_add(carry);
        proof {
            lemma_byte_bits(data);
        }

        let is_data_plus = (data & 0b10000000) == 0;
        self.set_carry(c1 || c2);
        let overflow_flag = (is_data_plus != is_l_data_plus) && (is_data_plus != is_r_data_plus);
        self.set_overflow(overflow_flag);
        data
    }

    /// Subtracts with borrow and sets the carry and overflow flags.
    fn sign_minus(&mut self, l_data: u8, r_data: u8) -> (r: u8)
        ensures
            r == (sbc_diff(l_data, r_data, old(self)@.regs.p.carry) % 256) as u8,
            final(self)@ == with_overflow(
                with_carry(old(self)@, sbc_diff(l_data, r_data, old(self)@.regs.p.carry) >= 0),
                l_data >= 0x80 && r < 0x80,
            ),
            final(self).ops() == old(self).ops(),
            final(self).bus == old(self).bus,
    {
        proof {
            lemma_byte_bits(l_data);
        }
        let is_l_data_minus = (l_data & 0b10000000) != 0;

        let c1 = l_data < r_data;
        let data = l_data.wrapping_sub(r_data);
        let l_data = data;
        let borrow: u8 = if self.get_carry() {
            0
        } else {
            1
        };
        let c2 = l_data < borrow;
        let data = l_data.wrapping_sub(borrow);
        proof {
            lemma_byte_bits(data);
        }
        let is_data_plus = (data & 0b10000000) == 0;
        self.set_carry(!(c1 || c2));
        let overflow_flag = is_l_data_minus && is_data_plus;
        self.set_overflow(overflow_flag);
        data
    }

    fn adc(&mut self, addr: u16, addr_mode: &AddrMode)
        requires
            old(self).wf(),
            operand_ok(old(self)@, addr, *addr_mode),
        ensures
            final(self)@ == after_adc(old(self)@, addr, *addr_mode),
            final(self).ops() == old(self).ops(),
            final(self).wf(),
    {
        proof {
            reveal(after_adc);
        }
        let data = self.get_addr_for_mixed_imm_mode(addr, addr_mode) as u16;
        let data = self.sign_plus(self.get_a(), data as u8);
        self.set_a(data);
        self.set_nz(self.get_a());
    }

    fn sbc(&mut self, addr: u16, addr_mode: &AddrMode)
        requires
            old(self).wf(),
            operand_ok(old(self)@, addr, *addr_mode),
        ensures
            final(self)@ == after_sbc(old(self)@, addr, *addr_mode),
            final(self).ops() == old(self).ops(),
            final(self).wf(),
    {
        proof {
            reveal(after_sbc);
        }
        let data = self.get_addr_for_mixed_imm_mode(addr, addr_mode) as u16;
        let data = self.sign_minus(self.get_a(), data as u8);
        self.set_a(data);
        self.set_nz(self.get_a());
    }

    fn and(&mut self, addr: u16, addr_mode: &AddrMode)
        requires
            old(self).wf(),
            operand_ok(old(self)@, addr, *addr_mode),
        ensures
            final(self)@ == after_and(old(self)@, addr, *addr_mode),
            final(self).ops() == old(self).ops(),
            final(self).wf(),
    {
        proof {
            reveal(after_and);
        }
        let data = self.get_addr_for_mixed_imm_mode(addr, addr_mode) as u8;
        let mut a = self.get_a();
        a &= data;
        self.set_a(a);
        self.set_nz(a);
    }

    fn ora(&mut self, addr: u16, addr_mode: &AddrMode)
        requires
            old(self).wf(),
            operand_ok(old(self)@, addr, *addr_mode),
        ensures
            final(self)@ == after_ora(old(self)@, addr, *addr_mode),
            final(self).ops() == old(self).ops(),
            final(self).wf(),
    {
        proof {
            reveal(after_ora);
        }
        let addr = self.get_addr_for_mixed_imm_mode(addr, addr_mode) as u8;
        let mut a = self.get_a();
        a |= addr;
        self.set_a(a);
        self.set_nz(a);
    }

    fn eor(&mut self, addr: u16, addr_mode: &AddrMode)
        requires
            old(self).wf(),
            operand_ok(old(self)@, addr, *addr_mode),
        ensures
            final(self)@ == after_eor(old(self)@, addr, *addr_mode),
            final(self).ops() == old(self).ops(),
            final(self).wf(),
    {
        proof {
            reveal(after_eor);
        }
        let addr = self.get_addr_for_mixed_imm_mode(addr, addr_mode) as u8;
        let mut a = self.get_a();
        a ^= addr;
        self.set_a(a);
        self.set_nz(a);
    }

    fn asl(&mut self, addr: u16, addr_mode: &AddrMode)
        requires
            old(self).wf(),
            rmw_ok(old(self)@, addr, *addr_mode),
        ensures
            final(self)@ == after_asl(old(self)@, addr, *addr_mode),
            final(self).ops() == old(self).ops(),
            final(self).wf(),
    {
        proof {
            reveal(rmw_ok);
        }
        proof {
            reveal(after_asl);
        }
        match addr_mode {
            AddrMode::Acc => {
                let mut data = addr as u8;
                proof {
                    lemma_byte_bits(data);
                }
                self.set_carry((data & 0b10000000) != 0);
                data <<= 1;
                self.set_nz(data);
                self.set_a(data);
            },
            _ => {
                let mut data = self.bus.addr(addr);
                proof {
                    lemma_byte_bits(data);
                }
                self.set_carry((data & 0b10000000) != 0);
                data <<= 1;
                self.set_nz(data);
                self.bus.set(addr, data);
            },
        }
    }

    fn lsr(&mut self, addr: u16, addr_mode: &AddrMode)
        requires
            old(self).wf(),
            rmw_ok(old(self)@, addr, *addr_mode),
        ensures
            final(self)@ == after_lsr(old(self)@, addr, *addr_mode),
            final(self).ops() == old(self).ops(),
            final(self).wf(),
    {
        proof {
            reveal(rmw_ok);
        }
        proof {
            reveal(after_lsr);
        }
        match addr_mode {
            AddrMode::Acc => {
                let mut data = addr as u8;
                proof {
                    lemma_byte_bits(data);
                }
                self.set_carry((data & 0b00000001) != 0);
                data >>= 1;
                self.set_nz(data);
                self.set_a(data);
            },
            _ => {
                let mut data = self.bus.addr(addr);
                proof {
                    lemma_byte_bits(data);
                }
                self.set_carry((data & 0b00000001) != 0);
                data >>= 1;
                self.set_nz(data);
                self.bus.set(addr, data);
            },
        }
    }

    fn rol(&mut self, addr: u16, addr_mode: &AddrMode)
        requires
            old(self).wf(),
            rmw_ok(old(self)@, addr, *addr_mode),
        ensures
            final(self)@ == after_rol(old(self)@, addr, *addr_mode),
            final(self).ops() == old(self).ops(),
            final(self).wf(),
    {
        proof {
            reveal(rmw_ok);
        }
        proof {
            reveal(after_rol);
        }
        match addr_mode {
            AddrMode::Acc => {
                let mut data = addr as u8;
                proof {
                    lemma_byte_bits(data);
                }
                let c: u8 = if self.get_carry() {
                    1
                } else {
                    0
                };
                self.set_carry((data & 0b10000000) != 0);
                data <<= 1;
                data |= c;
                self.set_nz(data);
                self.set_a(data);
            },
            _ => {
                let mut data = self.bus.addr(addr);
                proof {
                    lemma_byte_bits(data);
                }
                let c: u8 = if self.get_carry() {
                    1
                } else {
                    0
                };
                self.set_carry((data & 0b10000000) != 0);
                data <<= 1;
                data |= c;
                self.set_nz(data);
                self.bus.set(addr, data);
            },
        }
    }

    fn ror(&mut self, addr: u16, addr_mode: &AddrMode)
        requires
            old(self).wf(),
            rmw_ok(old(self)@, addr, *addr_mode),
        ensures
            final(self)@ == after_ror(old(self)@, addr, *addr_mode),
            final(self).ops() == old(self).ops(),
            final(self).wf(),
    {
        proof {
            reveal(rmw_ok);
        }
        proof {
            reveal(after_ror);
        }
        match addr_mode {
            AddrMode::Acc => {
                let mut data = addr as u8;
                proof {
                    lemma_byte_bits(data);
                }
                let c: u8 = if self.get_carry() {
                    1
                } else {
                    0
                };
                self.set_carry((data & 0b00000001) != 0);
                data >>= 0x1;
                data |= c << 7;
                self.set_nz(data);
                self.set_a(data);
            },
            _ => {
                let mut data = self.bus.addr(addr);
                proof {
                    lemma_byte_bits(data);
                }
                let c: u8 = if self.get_carry() {
                    1
                } else {
                    0
                };
                self.set_carry((data & 0b00000001) != 0);
                data >>= 0x1;
                data |= c << 7;
                self.set_nz(data);
                self.bus.set(addr, data);
            },
        };
    }
}

} // verus!

verus! {

impl CPU {
    /// Adds two bytes, wrapping; the overflow flag tells whether the sum
    /// passed 255.
    fn ex_plus(&mut self, l_data: u8, r_data: u8) -> (r: u8)
        ensures
            r == (l_data + r_data) % 256,
            final(self)@ == with_overflow(old(self)@, l_data + r_data > 255),
            final(self).ops() == old(self).ops(),
            final(self).bus == old(self).bus,
    {
        if l_data.checked_add(r_data).is_none() {
            self.set_overflow(true);
            ((l_data as u16 + r_data as u16 - 1) - (u8::MAX as u16)) as u8
        } else {
            self.set_overflow(false);
            l_data + r_data
        }
    }

    /// Adds two bytes, wrapping when the first is at or above 0x80.
    fn ex_i8_plus(&mut self, l_data: u8, r_data: u8) -> (r: u8)
        requires
            l_data < 0x80 ==> l_data + r_data <= u8::MAX,
        ensures
            r == (l_data + r_data) % 256,
            *final(self) == *old(self),
    {
        if l_data < 0x80 {
            l_data + r_data
        } else {
            let t = l_data as i16 + r_data as i16;
            let r = (#[verifier::truncate] (t as u8));
            assert(r == (l_data + r_data) % 256) by (bit_vector)
                requires
                    t == l_data as i16 + r_data as i16,
                    r == t as u8,
            ;
            r
        }
    }

    fn branch_taken(&mut self)
        requires
            can_count(old(self)@, 1),
        ensures
            final(self)@ == counted(old(self)@, 1),
            final(self).ops() == old(self).ops(),
            final(self).bus == old(self).bus,
    {
        self.inc_cycle(1);
    }

    /// Jumps to `data`, one cycle later, when `cond` holds.
    fn branch_if(&mut self, cond: bool, data: u16)
        requires
            cond ==> can_count(old(self)@, 1),
        ensures
            final(self)@ == after_branch(old(self)@, data, cond),
            final(self).ops() == old(self).ops(),
            final(self).bus == old(self).bus,
    {
        proof {
            reveal(after_branch);
        }
        if cond {
            self.branch_taken();
            self.set_pc(data);
        }
    }

    fn bcc(&mut self, data: u16)
        requires
            !old(self)@.regs.p.carry ==> can_count(old(self)@, 1),
        ensures
            final(self)@ == after_branch(old(self)@, data, !old(self)@.regs.p.carry),
            final(self).ops() == old(self).ops(),
            final(self).bus == old(self).bus,
    {
        let c = self.get_carry();
        self.branch_if(!c, data);
    }

    fn bcs(&mut self, data: u16)
        requires
            old(self)@.regs.p.carry ==> can_count(old(self)@, 1),
        ensures
            final(self)@ == after_branch(old(self)@, data, old(self)@.regs.p.carry),
            final(self).ops() == old(self).ops(),
            final(self).bus == old(self).bus,
    {
        let c = self.get_carry();
        self.branch_if(c, data);
    }

    fn beq(&mut self, data: u16)
        requires
            old(self)@.regs.p.zero ==> can_count(old(self)@, 1),
        ensures
            final(self)@ == after_branch(old(self)@, data, old(self)@.regs.p.zero),
            final(self).ops() == old(self).ops(),
            final(self).bus == old(self).bus,
    {
        let z = self.get_zero();
        self.branch_if(z, data);
    }

    fn bne(&mut self, data: u16)
        requires
            !old(self)@.regs.p.zero ==> can_count(old(self)@, 1),
        ensures
            final(self)@ == after_branch(old(self)@, data, !old(self)@.regs.p.zero),
            final(self).ops() == old(self).ops(),
            final(self).bus == old(self).bus,
    {
        let z = self.get_zero();
        self.branch_if(!z, data);
    }

    fn bvc(&mut self, data: u16)
        requires
            !old(self)@.regs.p.overflow ==> can_count(old(self)@, 1),
        ensures
            final(self)@ == after_branch(old(self)@, data, !old(self)@.regs.p.overflow),
            final(self).ops() == old(self).ops(),
            final(self).bus == old(self).bus,
    {
        let v = self.get_overflow();
        self.branch_if(!v, data);
    }

    fn bvs(&mut self, data: u16)
        requires
            old(self)@.regs.p.overflow ==> can_count(old(self)@, 1),
        ensures
            final(self)@ == after_branch(old(self)@, data, old(self)@.regs.p.overflow),
            final(self).ops() == old(self).ops(),
            final(self).bus == old(self).bus,
    {
        let v = self.get_overflow();
        self.branch_if(v, data);
    }

    fn bpl(&mut self, data: u16)
        requires
            !old(self)@.regs.p.negative ==> can_count(old(self)@, 1),
        ensures
            final(self)@ == after_branch(old(self)@, data, !old(self)@.regs.p.negative),
            final(self).ops() == old(self).ops(),
            final(self).bus == old(self).bus,
    {
        let n = self.get_negative();
        self.branch_if(!n, data);
    }

    fn bmi(&mut self, data: u16)
        requires
            old(self)@.regs.p.negative ==> can_count(old(self)@, 1),
        ensures
            final(self)@ == after_branch(old(self)@, data, old(self)@.regs.p.negative),
            final(self).ops() == old(self).ops(),
            final(self).bus == old(self).bus,
    {
        let n = self.get_negative();
        self.branch_if(n, data);
    }

    #[verifier::spinoff_prover]
    #[verifier::rlimit(30)]
    fn bit(&mut self, addr: u16)
        requires
            old(self).wf(),
            crate::bus::bus_readable(old(self)@.bus, addr),
        ensures
            final(self)@ == after_bit(old(self)@, addr),
            final(self).ops() == old(self).ops(),
            final(self).wf(),
    {
        proof {
            reveal(after_bit);
        }
        let data = self.bus.addr(addr);
        proof {
            lemma_byte_bits(data);
        }
        self.set_zero((data & self.get_a()) == 0);
        self.set_negative((data & 0b10000000) != 0);
        self.set_overflow((data & 0b01000000) != 0);
    }

    fn cmp(&mut self, addr: u16, addr_mode: &AddrMode)
        requires
            old(self).wf(),
            operand_ok(old(self)@, addr, *addr_mode),
        ensures
            final(self)@ == after_cmp(old(self)@, addr, *addr_mode),
            final(self).ops() == old(self).ops(),
            final(self).wf(),
    {
        proof {
            reveal(after_cmp);
        }
        let v = self.operand_byte(addr, addr_mode);
        let a = self.get_a();
        let overflow_flag = a < v;
        let data = a.wrapping_sub(v);
        self.set_nz(data);
        self.set_carry(!overflow_flag);
    }

    fn cpx(&mut self, addr: u16, addr_mode: &AddrMode)
        requires
            old(self).wf(),
            operand_ok(old(self)@, addr, *addr_mode),
        ensures
            final(self)@ == after_cpx(old(self)@, addr, *addr_mode),
            final(self).ops() == old(self).ops(),
            final(self).wf(),
    {
        proof {
            reveal(after_cpx);
        }
        let addr = self.get_addr_for_mixed_imm_mode(addr, addr_mode) as u8;
        let x = self.get_x();
        self.set_carry(x >= addr);
        self.set_zero(x == addr);
        let n = self.get_x().wrapping_sub(addr);
        proof {
            lemma_byte_bits(n);
        }
        self.set_negative((n & 0b10000000) != 0);
    }

    fn cpy(&mut self, addr: u16, addr_mode: &AddrMode)
        requires
            old(self).wf(),
            operand_ok(old(self)@, addr, *addr_mode),
        ensures
            final(self)@ == after_cpy(old(self)@, addr, *addr_mode),
            final(self).ops() == old(self).ops(),
            final(self).wf(),
    {
        proof {
            reveal(after_cpy);
        }
        let addr = self.get_addr_for_mixed_imm_mode(addr, addr_mode) as u8;
        let y = self.get_y();
        self.set_carry(y >= addr);
        self.set_zero(y == addr);
        let data = self.get_y().wrapping_sub(addr);
        proof {
            lemma_byte_bits(data);
        }
        self.set_negative((data & 0b10000000) != 0);
    }

    fn inc(&mut self, addr: u16)
        requires
            old(self).wf(),
            inc_ok(old(self)@, addr),
        ensures
            final(self)@ == after_inc(old(self)@, addr),
            final(self).ops() == old(self).ops(),
            final(self).wf(),
    {
        proof {
            reveal(inc_ok);
        }
        proof {
            reveal(after_inc);
        }
        let data = self.bus.addr(addr);
        let s = self.ex_plus(data, 1);
        self.bus_set(addr, s);
        self.set_nz(s);
    }

    fn dec(&mut self, addr: u16)
        requires
            old(self).wf(),
            dec_ok(old(self)@, addr),
        ensures
            final(self)@ == after_dec(old(self)@, addr),
            final(self).ops() == old(self).ops(),
            final(self).wf(),
    {
        proof {
            reveal(dec_ok);
        }
        proof {
            reveal(after_dec);
        }
        let v = self.bus.addr(addr);
        let data = v.wrapping_sub(1);
        self.bus_set(addr, data);
        self.set_nz(data);
    }

    fn inx(&mut self)
        ensures
            final(self)@ == with_nz(
                with_x(old(self)@, instruction::inc8(old(self)@.regs.x)),
                instruction::inc8(old(self)@.regs.x),
            ),
            final(self).ops() == old(self).ops(),
            final(self).bus == old(self).bus,
    {
        let x = self.ex_i8_plus(self.get_x(), 1);
        self.set_x(x);
        self.set_nz(x);
    }

    fn dex(&mut self)
        ensures
            final(self)@ == with_nz(
                with_x(old(self)@, instruction::dec8(old(self)@.regs.x)),
                instruction::dec8(old(self)@.regs.x),
            ),
            final(self).ops() == old(self).ops(),
            final(self).bus == old(self).bus,
    {
        let r0 = self.get_x();
        let x = r0 as i16 - 1;
        let x8 = (#[verifier::truncate] (x as u8));
        assert(x8 == ((r0 - 1) % 256) as u8) by (bit_vector)
            requires
                x == r0 as i16 - 1,
                x8 == (x as u8),
        ;
        self.set_x(x8);
        self.set_nz(x8);
    }

    fn iny(&mut self)
        ensures
            final(self)@ == with_nz(
                with_y(old(self)@, instruction::inc8(old(self)@.regs.y)),
                instruction::inc8(old(self)@.regs.y),
            ),
            final(self).ops() == old(self).ops(),
            final(self).bus == old(self).bus,
    {
        let y = self.ex_i8_plus(self.get_y(), 1);
        self.set_y(y as u8);
        self.set_nz(y as u8);
    }

    fn dey(&mut self)
        ensures
            final(self)@ == with_nz(
                with_y(old(self)@, instruction::dec8(old(self)@.regs.y)),
                instruction::dec8(old(self)@.regs.y),
            ),
            final(self).ops() == old(self).ops(),
            final(self).bus == old(self).bus,
    {
        let r0 = self.get_y();
        let y = r0 as i16 - 1;
        let y8 = (#[verifier::truncate] (y as u8));
        assert(y8 == ((r0 - 1) % 256) as u8) by (bit_vector)
            requires
                y == r0 as i16 - 1,
                y8 == (y as u8),
        ;
        self.set_y(y8);
        self.set_nz(y8);
    }
}

} // verus!

verus! {

impl CPU {
    fn clc(&mut self)
        ensures
            final(self)@ == with_carry(old(self)@, false),
            final(self).ops() == old(self).ops(),
            final(self).bus == old(self).bus,
    {
        self.set_carry(false)
    }

    fn sec(&mut self)
        ensures
            final(self)@ == with_carry(old(self)@, true),
            final(self).ops() == old(self).ops(),
            final(self).bus == old(self).bus,
    {
        self.set_carry(true)
    }

    fn cli(&mut self)
        ensures
            final(self)@ == with_flags(old(self)@, PFlags { interrupt: false, ..old(self)@.regs.p }),
            final(self).ops() == old(self).ops(),
            final(self).bus == old(self).bus,
    {
        self.set_interrupt(false)
    }

    fn sei(&mut self)
        ensures
            final(self)@ == with_flags(old(self)@, PFlags { interrupt: true, ..old(self)@.regs.p }),
            final(self).ops() == old(self).ops(),
            final(self).bus == old(self).bus,
    {
        self.set_interrupt(true)
    }

    fn cld(&mut self)
        ensures
            final(self)@ == with_flags(old(self)@, PFlags { decimal: false, ..old(self)@.regs.p }),
            final(self).ops() == old(self).ops(),
            final(self).bus == old(self).bus,
    {
        self.set_decimal(false)
    }

    fn sed(&mut self)
        ensures
            final(self)@ == with_flags(old(self)@, PFlags { decimal: true, ..old(self)@.regs.p }),
            final(self).ops() == old(self).ops(),
            final(self).bus == old(self).bus,
    {
        self.set_decimal(true)
    }

    fn clv(&mut self)
        ensures
            final(self)@ == with_overflow(old(self)@, false),
            final(self).ops() == old(self).ops(),
            final(self).bus == old(self).bus,
    {
        self.set_overflow(false)
    }

    fn lda(&mut self, addr: u16, addr_mode: &AddrMode)
        requires
            old(self).wf(),
            operand_ok(old(self)@, addr, *addr_mode),
        ensures
            final(self)@ == after_lda(old(self)@, addr, *addr_mode),
            final(self).ops() == old(self).ops(),
            final(self).wf(),
    {
        proof {
            reveal(after_lda);
        }
        let addr = self.get_addr_for_mixed_imm_mode(addr, addr_mode) as u8;
        self.set_a(addr);
        self.set_nz(self.get_a());
    }

    fn ldx(&mut self, addr: u16, addr_mode: &AddrMode)
        requires
            old(self).wf(),
            operand_ok(old(self)@, addr, *addr_mode),
        ensures
            final(self)@ == after_ldx(old(self)@, addr, *addr_mode),
            final(self).ops() == old(self).ops(),
            final(self).wf(),
    {
        proof {
            reveal(after_ldx);
        }
        let addr = self.get_addr_for_mixed_imm_mode(addr, addr_mode) as u8;
        self.set_x(addr);
        self.set_nz(self.get_x());
    }

    fn ldy(&mut self, addr: u16, addr_mode: &AddrMode)
        requires
            old(self).wf(),
            operand_ok(old(self)@, addr, *addr_mode),
        ensures
            final(self)@ == after_ldy(old(self)@, addr, *addr_mode),
            final(self).ops() == old(self).ops(),
            final(self).wf(),
    {
        proof {
            reveal(after_ldy);
        }
        let addr = self.get_addr_for_mixed_imm_mode(addr, &addr_mode) as u8;
        self.set_y(addr);
        self.set_nz(self.get_y());
    }

    fn sta(&mut self, addr: u16)
        requires
            old(self).wf(),
            write_ok(old(self)@, addr, old(self)@.regs.a),
        ensures
            final(self)@ == written(old(self)@, addr, old(self)@.regs.a),
            final(self).ops() == old(self).ops(),
            final(self).wf(),
    {
        self.bus_set(addr, self.get_a());
    }

    fn stx(&mut self, addr: u16)
        requires
            old(self).wf(),
            write_ok(old(self)@, addr, old(self)@.regs.x),
        ensures
            final(self)@ == written(old(self)@, addr, old(self)@.regs.x),
            final(self).ops() == old(self).ops(),
            final(self).wf(),
    {
        self.bus_set(addr, self.get_x());
    }

    fn sty(&mut self, addr: u16)
        requires
            old(self).wf(),
            write_ok(old(self)@, addr, old(self)@.regs.y),
        ensures
            final(self)@ == written(old(self)@, addr, old(self)@.regs.y),
            final(self).ops() == old(self).ops(),
            final(self).wf(),
    {
        self.bus_set(addr, self.get_y());
    }

    fn tax(&mut self)
        ensures
            final(self)@ == with_nz(with_x(old(self)@, old(self)@.regs.a), old(self)@.regs.a),
            final(self).ops() == old(self).ops(),
            final(self).bus == old(self).bus,
    {
        self.set_x(self.get_a());
        self.set_nz(self.get_x());
    }

    fn txa(&mut self)
        ensures
            final(self)@ == with_nz(with_a(old(self)@, old(self)@.regs.x), old(self)@.regs.x),
            final(self).ops() == old(self).ops(),
            final(self).bus == old(self).bus,
    {
        self.set_a(self.get_x());
        self.set_nz(self.get_a());
    }

    fn tsx(&mut self)
        ensures
            final(self)@ == with_nz(with_x(old(self)@, old(self)@.regs.s), old(self)@.regs.s),
            final(self).ops() == old(self).ops(),
            final(self).bus == old(self).bus,
    {
        let s = self.get_s() as u8;
        self.set_x(s);
        self.set_nz(s);
    }

    fn tay(&mut self)
        ensures
            final(self)@ == with_nz(with_y(old(self)@, old(self)@.regs.a), old(self)@.regs.a),
            final(self).ops() == old(self).ops(),
            final(self).bus == old(self).bus,
    {
        self.set_y(self.get_a());
        self.set_nz(self.get_y());
    }

    fn tya(&mut self)
        ensures
            final(self)@ == with_nz(with_a(old(self)@, old(self)@.regs.y), old(self)@.regs.y),
            final(self).ops() == old(self).ops(),
            final(self).bus == old(self).bus,
    {
        self.set_a(self.get_y());
        self.set_nz(self.get_a());
    }

    fn txs(&mut self)
        ensures
            final(self)@ == with_s(old(self)@, old(self)@.regs.x),
            final(self).ops() == old(self).ops(),
            final(self).bus == old(self).bus,
    {
        self.set_s(self.get_x());
    }

    fn pha(&mut self)
        requires
            old(self).wf(),
        ensures
            final(self)@ == pushed(old(self)@, old(self)@.regs.a),
            final(self).ops() == old(self).ops(),
            final(self).wf(),
    {
        self.push_stack(self.get_a());
    }

    fn pla(&mut self)
        requires
            old(self).wf(),
        ensures
            final(self)@ == with_nz(
                with_a(pulled(old(self)@), pull_value(old(self)@)),
                pull_value(old(self)@),
            ),
            final(self).ops() == old(self).ops(),
            final(self).wf(),
    {
        let data = self.pull_stack();
        self.set_a(data);
        self.set_nz(self.get_a());
    }

    fn php(&mut self)
        requires
            old(self).wf(),
        ensures
            final(self)@ == pushed(old(self)@, flags_to_byte(old(self)@.regs.p) | 0x20),
            final(self).ops() == old(self).ops(),
            final(self).wf(),
    {
        let mut data = self.get_p();
        data |= 0b00100000;
        self.push_stack(data);
    }

    fn plp(&mut self)
        requires
            old(self).wf(),
        ensures
            final(self)@ == with_flags(
                pulled(old(self)@),
                flags_from_byte(pull_value(old(self)@) & 0xEF),
            ),
            final(self).ops() == old(self).ops(),
            final(self).wf(),
    {
        let mut data = self.pull_stack();
        data &= 0b11101111;
        self.set_p(data);
    }

    fn jmp(&mut self, addr: u16)
        ensures
            final(self)@ == with_pc(old(self)@, addr),
            final(self).ops() == old(self).ops(),
            final(self).bus == old(self).bus,
    {
        self.set_pc(addr);
    }

    /// Pushes a 16-bit value, high byte first.
    fn push_word(&mut self, p: u16)
        requires
            old(self).wf(),
        ensures
            final(self)@ == pushed_word(old(self)@, p),
            final(self).ops() == old(self).ops(),
            final(self).wf(),
    {
        let h_data = ((p & 0xFF00) >> 8) as u8;
        let l_data = (p & 0x00FF) as u8;
        assert(h_data == high_byte(p) && l_data == low_byte(p)) by (bit_vector)
            requires
                h_data == ((p & 0xFF00) >> 8) as u8,
                l_data == (p & 0x00FF) as u8,
        ;
        self.push_stack(h_data);
        self.push_stack(l_data);
    }

    /// Pushes the program counter, high byte first.
    fn push_pc(&mut self)
        requires
            old(self).wf(),
        ensures
            final(self)@ == pushed_word(old(self)@, old(self)@.regs.pc),
            final(self).ops() == old(self).ops(),
            final(self).wf(),
    {
        let p = self.get_pc();
        self.push_word(p);
    }

    fn jsr(&mut self, addr: u16)
        requires
            old(self).wf(),
            old(self)@.regs.pc >= 1,
        ensures
            final(self)@ == after_jsr(old(self)@, addr),
            final(self).ops() == old(self).ops(),
            final(self).wf(),
    {
        proof {
            reveal(after_jsr);
        }
        let pc = self.get_pc() - 1;
        self.push_word(pc);
        self.set_pc(addr);
    }

    fn rts(&mut self)
        requires
            old(self).wf(),
        ensures
            final(self)@ == after_rts(old(self)@),
            final(self).ops() == old(self).ops(),
            final(self).wf(),
    {
        proof {
            reveal(after_rts);
        }
        let l_data = self.pull_stack();
        let h_data = self.pull_stack();
        let addr = combine_high_low(l_data, h_data);
        self.set_pc(addr);
        self.set_pc(self.get_pc().wrapping_add(1));
    }

    /// The interrupt flag, which lets BRK run.
    fn is_branch_enable(&self) -> (r: bool)
        ensures
            r == self@.regs.p.interrupt,
    {
        if self.get_interrupt() {
            true
        } else {
            false
        }
    }

    /// The break flag, with which BRK would stop the program.
    fn is_break_enable(&self) -> (r: bool)
        ensures
            r == self@.regs.p.break_mode,
    {
        if self.get_break_mode() {
            true
        } else {
            false
        }
    }

    fn brk(&mut self)
        requires
            old(self).wf(),
            brk_ok(old(self)@),
        ensures
            final(self)@ == after_brk(old(self)@),
            final(self).ops() == old(self).ops(),
            final(self).wf(),
    {
        proof {
            reveal(after_brk);
        }
        let stopped = self.is_break_enable();
        if !stopped && self.is_branch_enable() {
            self.enter_brk();
        }
    }

    #[verifier::spinoff_prover]
    fn enter_brk(&mut self)
        requires
            old(self).wf(),
            old(self)@.regs.pc + 1 <= u16::MAX,
        ensures
            final(self)@ == instruction::brk_entered(old(self)@),
            final(self).ops() == old(self).ops(),
            final(self).wf(),
    {
        let ghost s0 = self@;
        self.inc_pc(1);
        let ghost s1 = self@;
        self.push_pc();
        let ghost s2 = self@;
        assert(s2 == pushed_word(s1, s1.regs.pc));
        self.set_break_mode(true);
        self.set_interrupt(true);
        let ghost s3 = self@;
        assert(s3 == with_flags(s2, PFlags { break_mode: true, interrupt: true, ..s2.regs.p }));
        let p = self.get_p();
        self.push_stack(p);
        let ghost s4 = self@;
        assert(s4 == pushed(s3, flags_to_byte(s3.regs.p)));
        let (h_data, l_data) = self.bus.cpu_bus.hl_addr(0xFFFE);
        assert(self@ == s4);
        self.set_pc(combine_high_low(h_data, l_data));
    }

    /// Enters the non-maskable interrupt handler.
    #[verifier::spinoff_prover]
    fn enter_nmi(&mut self)
        requires
            old(self).wf(),
        ensures
            final(self)@ == nmi_entered(old(self)@),
            final(self).ops() == old(self).ops(),
            final(self).wf(),
    {
        let ghost s0 = self@;
        self.set_break_mode(false);
        self.set_interrupt(true);
        let ghost s1 = self@;
        assert(s1 == with_flags(s0, PFlags { break_mode: false, interrupt: true, ..s0.regs.p }));
        self.push_pc();
        let ghost s2 = self@;
        assert(s2 == pushed_word(s1, s0.regs.pc));
        let p = self.get_p();
        self.push_stack(p);
        let ghost s3 = self@;
        assert(s3 == pushed(s2, flags_to_byte(s2.regs.p)));
        let (l_data, h_data) = self.bus.cpu_bus.lh_addr(0xFFFA);
        assert(self@ == s3);
        self.register.set_pc(combine_high_low(l_data, h_data));
    }

    fn rti(&mut self)
        requires
            old(self).wf(),
        ensures
            final(self)@ == after_rti(old(self)@),
            final(self).ops() == old(self).ops(),
            final(self).wf(),
    {
        proof {
            reveal(after_rti);
        }
        let data = self.pull_stack();
        let l_data = self.pull_stack();
        let h_data = self.pull_stack();
        self.set_pc(combine_high_low(l_data, h_data));
        self.set_p(data);
    }

    fn lax(&mut self, addr: u16, addr_mode: &AddrMode)
        requires
            old(self).wf(),
            operand_ok(old(self)@, addr, *addr_mode),
            operand_ok(after_lda(old(self)@, addr, *addr_mode), addr, *addr_mode),
        ensures
            final(self)@ == after_ldx(after_lda(old(self)@, addr, *addr_mode), addr, *addr_mode),
            final(self).ops() == old(self).ops(),
            final(self).wf(),
    {
        self.lda(addr, addr_mode);
        self.ldx(addr, addr_mode);
    }

    fn sax(&mut self, addr: u16)
        requires
            old(self).wf(),
            write_ok(old(self)@, addr, old(self)@.regs.a & old(self)@.regs.x),
        ensures
            final(self)@ == written(old(self)@, addr, old(self)@.regs.a & old(self)@.regs.x),
            final(self).ops() == old(self).ops(),
            final(self).wf(),
    {
        self.bus_set(addr, self.get_a() & self.get_x());
    }

    fn dcp(&mut self, addr: u16, addr_mode: &AddrMode)
        requires
            old(self).wf(),
            dec_ok(old(self)@, addr),
            operand_ok(after_dec(old(self)@, addr), addr, *addr_mode),
        ensures
            final(self)@ == after_cmp(after_dec(old(self)@, addr), addr, *addr_mode),
            final(self).ops() == old(self).ops(),
            final(self).wf(),
    {
        self.dec(addr);
        self.cmp(addr, addr_mode);
    }

    fn isb(&mut self, addr: u16, addr_mode: &AddrMode)
        requires
            old(self).wf(),
            inc_ok(old(self)@, addr),
            operand_ok(after_inc(old(self)@, addr), addr, *addr_mode),
        ensures
            final(self)@ == after_sbc(after_inc(old(self)@, addr), addr, *addr_mode),
            final(self).ops() == old(self).ops(),
            final(self).wf(),
    {
        self.inc(addr);
        self.sbc(addr, addr_mode);
    }

    fn slo(&mut self, addr: u16, addr_mode: &AddrMode)
        requires
            old(self).wf(),
            rmw_ok(old(self)@, addr, *addr_mode),
            operand_ok(after_asl(old(self)@, addr, *addr_mode), addr, *addr_mode),
        ensures
            final(self)@ == after_ora(after_asl(old(self)@, addr, *addr_mode), addr, *addr_mode),
            final(self).ops() == old(self).ops(),
            final(self).wf(),
    {
        self.asl(addr, addr_mode);
        self.ora(addr, addr_mode);
    }

    fn rla(&mut self, addr: u16, addr_mode: &AddrMode)
        requires
            old(self).wf(),
            rmw_ok(old(self)@, addr, *addr_mode),
            operand_ok(after_rol(old(self)@, addr, *addr_mode), addr, *addr_mode),
        ensures
            final(self)@ == after_and(after_rol(old(self)@, addr, *addr_mode), addr, *addr_mode),
            final(self).ops() == old(self).ops(),
            final(self).wf(),
    {
        self.rol(addr, addr_mode);
        self.and(addr, addr_mode);
    }

    fn sre(&mut self, addr: u16, addr_mode: &AddrMode)
        requires
            old(self).wf(),
            rmw_ok(old(self)@, addr, *addr_mode),
            operand_ok(after_lsr(old(self)@, addr, *addr_mode), addr, *addr_mode),
        ensures
            final(self)@ == after_eor(after_lsr(old(self)@, addr, *addr_mode), addr, *addr_mode),
            final(self).ops() == old(self).ops(),
            final(self).wf(),
    {
        self.lsr(addr, addr_mode);
        self.eor(addr, addr_mode);
    }

    fn rra(&mut self, addr: u16, addr_mode: &AddrMode)
        requires
            old(self).wf(),
            rmw_ok(old(self)@, addr, *addr_mode),
            operand_ok(after_ror(old(self)@, addr, *addr_mode), addr, *addr_mode),
        ensures
            final(self)@ == after_adc(after_ror(old(self)@, addr, *addr_mode), addr, *addr_mode),
            final(self).ops() == old(self).ops(),
            final(self).wf(),
    {
        self.ror(addr, addr_mode);
        self.adc(addr, addr_mode);
    }
}

} // verus!

verus! {

/// The interrupts of the processor.
#[derive(Debug, Clone)]
pub enum Interrupt {
    Nmi,
    Reset,
    Irq,
    Brk,
}

/// The state with the memory cells replaced.
pub open spec fn with_mem(s: CpuState, mem: Seq<u8>) -> CpuState {
    CpuState {
        bus: BusView { cpu: crate::bus::cpu_map::CpuMapView { mem: mem, ..s.bus.cpu }, ..s.bus },
        ..s
    }
}

/// The memory after the first `n` bytes of the program ROM were loaded, at
/// 0x8000 and, for a 0x4000-byte ROM, again at 0xC000.
pub open spec fn loaded_upto(mem: Seq<u8>, prg: Seq<u8>, n: int) -> Seq<u8> {
    Seq::new(
        mem.len(),
        |k: int|
            if 0x8000 <= k < 0x8000 + n {
                prg[k - 0x8000]
            } else if prg.len() == 0x4000 && 0xC000 <= k < 0xC000 + n {
                prg[k - 0xC000]
            } else {
                mem[k]
            },
    )
}

/// The state after the program ROM was loaded.
pub open spec fn prg_rom_loaded(s: CpuState, prg: Seq<u8>) -> CpuState {
    with_mem(s, prg_loaded(s.bus.cpu.mem, prg))
}

impl CPU {
    /// Carries out the instruction `opekind` with operand address `addr`.
    fn run_ope(&mut self, addr: u16, opekind: OpeKind, addr_mode: AddrMode)
        requires
            old(self).wf(),
            run_ok(old(self)@, addr, opekind, addr_mode),
        ensures
            final(self)@ == ran(old(self)@, addr, opekind, addr_mode),
            final(self).ops() == old(self).ops(),
            final(self).wf(),
    {
        match opekind {
            OpeKind::Adc | OpeKind::Sbc | OpeKind::And | OpeKind::Ora | OpeKind::Eor | OpeKind::Cmp | OpeKind::Cpx | OpeKind::Cpy | OpeKind::Lda | OpeKind::Ldx | OpeKind::Ldy | OpeKind::Bit | OpeKind::Lax => {
                self.run_read_ope(addr, opekind, addr_mode)
            },
            OpeKind::Asl | OpeKind::Lsr | OpeKind::Rol | OpeKind::Ror | OpeKind::Inc | OpeKind::Dec | OpeKind::Sta | OpeKind::Stx | OpeKind::Sty | OpeKind::Sax | OpeKind::Dcp | OpeKind::Isb | OpeKind::Slo | OpeKind::Rla | OpeKind::Sre | OpeKind::Rra => {
                self.run_write_ope(addr, opekind, addr_mode)
            },
            OpeKind::Bcc | OpeKind::Bcs | OpeKind::Beq | OpeKind::Bne | OpeKind::Bvc | OpeKind::Bvs | OpeKind::Bpl | OpeKind::Bmi | OpeKind::Jmp | OpeKind::Jsr | OpeKind::Rts | OpeKind::Brk | OpeKind::Rti => {
                self.run_flow_ope(addr, opekind, addr_mode)
            },
            _ => self.run_register_ope(addr, opekind, addr_mode),
        }
    }

    /// Carries out the instructions that read an operand.
    #[verifier::spinoff_prover]
    #[verifier::rlimit(100)]
    fn run_read_ope(&mut self, addr: u16, opekind: OpeKind, addr_mode: AddrMode)
        requires
            old(self).wf(),
            instruction::reads_operand(opekind),
            run_ok(old(self)@, addr, opekind, addr_mode),
        ensures
            final(self)@ == ran(old(self)@, addr, opekind, addr_mode),
            final(self).ops() == old(self).ops(),
            final(self).wf(),
    {
        match opekind {
            OpeKind::Adc => {
                proof {
                    instruction::lemma_read_table_0(old(self)@, addr, addr_mode);
                }
                self.adc(addr, &addr_mode);
                return;
            },
            OpeKind::Sbc => {
                proof {
                    instruction::lemma_read_table_0(old(self)@, addr, addr_mode);
                }
                self.sbc(addr, &addr_mode);
                return;
            },
            OpeKind::And => {
                proof {
                    instruction::lemma_read_table_0(old(self)@, addr, addr_mode);
                }
                self.and(addr, &addr_mode);
                return;
            },
            OpeKind::Ora => {
                proof {
                    instruction::lemma_read_table_0(old(self)@, addr, addr_mode);
                }
                self.ora(addr, &addr_mode);
                return;
            },
            OpeKind::Eor => {
                proof {
                    instruction::lemma_read_table_0(old(self)@, addr, addr_mode);
                }
                self.eor(addr, &addr_mode);
                return;
            },
            OpeKind::Cmp => {
                proof {
                    instruction::lemma_read_table_1(old(self)@, addr, addr_mode);
                }
                self.cmp(addr, &addr_mode);
                return;
            },
            OpeKind::Cpx => {
                proof {
                    instruction::lemma_read_table_1(old(self)@, addr, addr_mode);
                }
                self.cpx(addr, &addr_mode);
                return;
            },
            OpeKind::Cpy => {
                proof {
                    instruction::lemma_read_table_1(old(self)@, addr, addr_mode);
                }
                self.cpy(addr, &addr_mode);
                return;
            },
            OpeKind::Lda => {
                proof {
                    instruction::lemma_read_table_1(old(self)@, addr, addr_mode);
                }
                self.lda(addr, &addr_mode);
                return;
            },
            OpeKind::Ldx => {
                proof {
                    instruction::lemma_read_table_1(old(self)@, addr, addr_mode);
                }
                self.ldx(addr, &addr_mode);
                return;
            },
            OpeKind::Ldy => {
                proof {
                    instruction::lemma_read_table_2(old(self)@, addr, addr_mode);
                }
                self.ldy(addr, &addr_mode);
                return;
            },
            OpeKind::Bit => {
                proof {
                    instruction::lemma_read_table_2(old(self)@, addr, addr_mode);
                }
                self.bit(addr);
                return;
            },
            OpeKind::Lax => {
                proof {
                    instruction::lemma_read_table_2(old(self)@, addr, addr_mode);
                }
                self.lax(addr, &addr_mode);
                return;
            },
            _ => (),
        }
    }

    /// Carries out the instructions that write memory.
    #[verifier::spinoff_prover]
    #[verifier::rlimit(100)]
    fn run_write_ope(&mut self, addr: u16, opekind: OpeKind, addr_mode: AddrMode)
        requires
            old(self).wf(),
            instruction::writes_memory(opekind),
            run_ok(old(self)@, addr, opekind, addr_mode),
        ensures
            final(self)@ == ran(old(self)@, addr, opekind, addr_mode),
            final(self).ops() == old(self).ops(),
            final(self).wf(),
    {
        match opekind {
            OpeKind::Asl => {
                proof {
                    instruction::lemma_write_table_0(old(self)@, addr, addr_mode);
                }
                self.asl(addr, &addr_mode);
                return;
            },
            OpeKind::Lsr => {
                proof {
                    instruction::lemma_write_table_0(old(self)@, addr, addr_mode);
                }
                self.lsr(addr, &addr_mode);
                return;
            },
            OpeKind::Rol => {
                proof {
                    instruction::lemma_write_table_0(old(self)@, addr, addr_mode);
                }
                self.rol(addr, &addr_mode);
                return;
            },
            OpeKind::Ror => {
                proof {
                    instruction::lemma_write_table_0(old(self)@, addr, addr_mode);
                }
                self.ror(addr, &addr_mode);
                return;
            },
            OpeKind::Inc => {
                proof {
                    instruction::lemma_write_table_0(old(self)@, addr, addr_mode);
                }
                self.inc(addr);
                return;
            },
            OpeKind::Dec => {
                proof {
                    instruction::lemma_write_table_1(old(self)@, addr, addr_mode);
                }
                self.dec(addr);
                return;
            },
            OpeKind::Sta => {
                proof {
                    instruction::lemma_write_table_1(old(self)@, addr, addr_mode);
                }
                self.sta(addr);
                return;
            },
            OpeKind::Stx => {
                proof {
                    instruction::lemma_write_table_1(old(self)@, addr, addr_mode);
                }
                self.stx(addr);
                return;
            },
            OpeKind::Sty => {
                proof {
                    instruction::lemma_write_table_1(old(self)@, addr, addr_mode);
                }
                self.sty(addr);
                return;
            },
            OpeKind::Sax => {
                proof {
                    instruction::lemma_write_table_1(old(self)@, addr, addr_mode);
                }
                self.sax(addr);
                return;
            },
            OpeKind::Dcp => {
                proof {
                    instruction::lemma_write_table_2(old(self)@, addr, addr_mode);
                }
                self.dcp(addr, &addr_mode);
                return;
            },
            OpeKind::Isb => {
                proof {
                    instruction::lemma_write_table_2(old(self)@, addr, addr_mode);
                }
                self.isb(addr, &addr_mode);
                return;
            },
            OpeKind::Slo => {
                proof {
                    instruction::lemma_write_table_2(old(self)@, addr, addr_mode);
                }
                self.slo(addr, &addr_mode);
                return;
            },
            OpeKind::Rla => {
                proof {
                    instruction::lemma_write_table_2(old(self)@, addr, addr_mode);
                }
                self.rla(addr, &addr_mode);
                return;
            },
            OpeKind::Sre => {
                proof {
                    instruction::lemma_write_table_2(old(self)@, addr, addr_mode);
                }
                self.sre(addr, &addr_mode);
                return;
            },
            OpeKind::Rra => {
                proof {
                    instruction::lemma_write_table_3(old(self)@, addr, addr_mode);
                }
                self.rra(addr, &addr_mode);
                return;
            },
            _ => (),
        }
    }

    /// Carries out the branches, jumps, calls and returns.
    #[verifier::spinoff_prover]
    fn run_flow_ope(&mut self, addr: u16, opekind: OpeKind, addr_mode: AddrMode)
        requires
            old(self).wf(),
            instruction::changes_flow(opekind),
            run_ok(old(self)@, addr, opekind, addr_mode),
        ensures
            final(self)@ == ran(old(self)@, addr, opekind, addr_mode),
            final(self).ops() == old(self).ops(),
            final(self).wf(),
    {
        match opekind {
            OpeKind::Bcc => {
                proof {
                    instruction::lemma_flow_table_0(old(self)@, addr, addr_mode);
                }
                self.bcc(addr);
                return;
            },
            OpeKind::Bcs => {
                proof {
                    instruction::lemma_flow_table_0(old(self)@, addr, addr_mode);
                }
                self.bcs(addr);
                return;
            },
            OpeKind::Beq => {
                proof {
                    instruction::lemma_flow_table_0(old(self)@, addr, addr_mode);
                }
                self.beq(addr);
                return;
            },
            OpeKind::Bne => {
                proof {
                    instruction::lemma_flow_table_0(old(self)@, addr, addr_mode);
                }
                self.bne(addr);
                return;
            },
            OpeKind::Bvc => {
                proof {
                    instruction::lemma_flow_table_0(old(self)@, addr, addr_mode);
                }
                self.bvc(addr);
                return;
            },
            OpeKind::Bvs => {
                proof {
                    instruction::lemma_flow_table_1(old(self)@, addr, addr_mode);
                }
                self.bvs(addr);
                return;
            },
            OpeKind::Bpl => {
                proof {
                    instruction::lemma_flow_table_1(old(self)@, addr, addr_mode);
                }
                self.bpl(addr);
                return;
            },
            OpeKind::Bmi => {
                proof {
                    instruction::lemma_flow_table_1(old(self)@, addr, addr_mode);
                }
                self.bmi(addr);
                return;
            },
            OpeKind::Jmp => {
                proof {
                    instruction::lemma_flow_table_1(old(self)@, addr, addr_mode);
                }
                self.jmp(addr);
                return;
            },
            OpeKind::Jsr => {
                proof {
                    instruction::lemma_flow_table_1(old(self)@, addr, addr_mode);
                }
                self.jsr(addr);
                return;
            },
            OpeKind::Rts => {
                proof {
                    instruction::lemma_flow_table_2(old(self)@, addr, addr_mode);
                }
                self.rts();
                return;
            },
            OpeKind::Brk => {
                proof {
                    instruction::lemma_flow_table_2(old(self)@, addr, addr_mode);
                }
                self.brk();
                return;
            },
            OpeKind::Rti => {
                proof {
                    instruction::lemma_flow_table_2(old(self)@, addr, addr_mode);
                }
                self.rti();
                return;
            },
            _ => (),
        }
    }

    /// Carries out the instructions on registers, flags and the stack.
    #[verifier::spinoff_prover]
    fn run_register_ope(&mut self, addr: u16, opekind: OpeKind, addr_mode: AddrMode)
        requires
            old(self).wf(),
            !instruction::reads_operand(opekind),
            !instruction::writes_memory(opekind),
            !instruction::changes_flow(opekind),
            run_ok(old(self)@, addr, opekind, addr_mode),
        ensures
            final(self)@ == ran(old(self)@, addr, opekind, addr_mode),
            final(self).ops() == old(self).ops(),
            final(self).wf(),
    {
        match opekind {
            OpeKind::Inx => {
                proof {
                    instruction::lemma_register_table_0(old(self)@, addr, addr_mode);
                }
                self.inx();
                return;
            },
            OpeKind::Dex => {
                proof {
                    instruction::lemma_register_table_0(old(self)@, addr, addr_mode);
                }
                self.dex();
                return;
            },
            OpeKind::Iny => {
                proof {
                    instruction::lemma_register_table_0(old(self)@, addr, addr_mode);
                }
                self.iny();
                return;
            },
            OpeKind::Dey => {
                proof {
                    instruction::lemma_register_table_0(old(self)@, addr, addr_mode);
                }
                self.dey();
                return;
            },
            OpeKind::Clc => {
                proof {
                    instruction::lemma_register_table_0(old(self)@, addr, addr_mode);
                }
                self.clc();
                return;
            },
            OpeKind::Sec => {
                proof {
                    instruction::lemma_register_table_1a(old(self)@, addr, addr_mode);
                }
                self.sec();
                return;
            },
            OpeKind::Cli => {
                proof {
                    instruction::lemma_register_table_1a(old(self)@, addr, addr_mode);
                }
                self.cli();
                return;
            },
            OpeKind::Sei => {
                proof {
                    instruction::lemma_register_table_1b(old(self)@, addr, addr_mode);
                }
                self.sei();
                return;
            },
            OpeKind::Cld => {
                proof {
                    instruction::lemma_register_table_1b(old(self)@, addr, addr_mode);
                }
                self.cld();
                return;
            },
            OpeKind::Sed => {
                proof {
                    instruction::lemma_register_table_1c(old(self)@, addr, addr_mode);
                }
                self.sed();
                return;
            },
            OpeKind::Clv => {
                proof {
                    instruction::lemma_register_table_2(old(self)@, addr, addr_mode);
                }
                self.clv();
                return;
            },
            OpeKind::Tax => {
                proof {
                    instruction::lemma_register_table_2(old(self)@, addr, addr_mode);
                }
                self.tax();
                return;
            },
            OpeKind::Txa => {
                proof {
                    instruction::lemma_register_table_2(old(self)@, addr, addr_mode);
                }
                self.txa();
                return;
            },
            OpeKind::Tsx => {
                proof {
                    instruction::lemma_register_table_2(old(self)@, addr, addr_mode);
                }
                self.tsx();
                return;
            },
            OpeKind::Tay => {
                proof {
                    instruction::lemma_register_table_2(old(self)@, addr, addr_mode);
                }
                self.tay();
                return;
            },
            OpeKind::Tya => {
                proof {
                    instruction::lemma_register_table_3(old(self)@, addr, addr_mode);
                }
                self.tya();
                return;
            },
            OpeKind::Txs => {
                proof {
                    instruction::lemma_register_table_3(old(self)@, addr, addr_mode);
                }
                self.txs();
                return;
            },
            OpeKind::Pha => {
                proof {
                    instruction::lemma_register_table_3(old(self)@, addr, addr_mode);
                }
                self.pha();
                return;
            },
            OpeKind::Pla => {
                proof {
                    instruction::lemma_register_table_3(old(self)@, addr, addr_mode);
                }
                self.pla();
                return;
            },
            OpeKind::Php => {
                proof {
                    instruction::lemma_register_table_3(old(self)@, addr, addr_mode);
                }
                self.php();
                return;
            },
            OpeKind::Plp => {
                proof {
                    instruction::lemma_register_table_4(old(self)@, addr, addr_mode);
                }
                self.plp();
                return;
            },
            OpeKind::Nop | OpeKind::Dop | OpeKind::Top => {
                proof {
                    instruction::lemma_register_table_4(old(self)@, addr, addr_mode);
                }
                ()
            },
            _ => {
                proof {
                    instruction::lemma_unsupported(old(self)@, addr, opekind, addr_mode);
                }
            },
        }
    }

    /// Reads the opcode at the program counter and looks it up.
    pub fn read_ope(&mut self) -> (r: Option<Operator>)
        requires
            old(self).wf(),
            bus_readable(old(self)@.bus, old(self)@.regs.pc),
        ensures
            r == (if old(self).ops().contains_key(fetch_value(old(self)@)) {
                Some(old(self).ops()[fetch_value(old(self)@)])
            } else {
                None
            }),
            final(self)@ == fetched(old(self)@),
            final(self).ops() == old(self).ops(),
            final(self).wf(),
    {
        let data = self.fetch_register();
        operator_table_get(&self.operators, data)
    }

    /// Runs one instruction: reads the opcode, finds the operand, carries
    /// the instruction out and counts its cycles.
    pub fn ex_ope(&mut self)
        requires
            old(self).wf(),
            step_ok(old(self)@, old(self).ops()),
        ensures
            final(self)@ == stepped(old(self)@, old(self).ops()),
            final(self).ops() == old(self).ops(),
            final(self).wf(),
    {
        match self.read_ope() {
            Some(Operator { ope_kind, addr_mode, cycle }) => {
                let ope_kind = ope_kind.clone();
                let addr_mode = addr_mode.clone();
                let cycle = cycle.clone();
                let reg_addr = self.ex_addr_mode(&addr_mode);
                self.run_ope(reg_addr, ope_kind.clone(), addr_mode);
                self.inc_cycle(cycle);
            },
            None => {
                self.undef();
                self.cycle += 1;
            },
        }
    }

    /// Takes an interrupt: the non-maskable one enters its handler, reset
    /// loads the program counter from the reset vector.
    pub fn interrupt(&mut self, intr: Interrupt)
        requires
            old(self).wf(),
            intr is Nmi || intr is Reset,
        ensures
            intr is Nmi ==> final(self)@ == nmi_entered(old(self)@),
            intr is Reset ==> final(self)@ == after_reset(old(self)@),
            final(self).ops() == old(self).ops(),
            final(self).wf(),
    {
        match intr {
            Interrupt::Nmi => self.enter_nmi(),
            Interrupt::Reset => self.reset(),
            Interrupt::Irq => (),
            Interrupt::Brk => (),
        }
    }

    /// Loads the program counter from the reset vector at 0xFFFC, passing
    /// its bytes through X and Y.
    pub fn reset(&mut self)
        requires
            old(self).wf(),
        ensures
            final(self)@ == after_reset(old(self)@),
            final(self).ops() == old(self).ops(),
            final(self).wf(),
    {
        let l_data = self.bus.addr(0xFFFC);
        let h_data = self.bus.addr(0xFFFD);
        self.set_x(l_data);
        self.set_y(h_data);
        self.register.set_pc(combine_high_low(self.get_x(), self.get_y()));
    }

    /// Loads the program ROM into 0x8000..=0xFFFF; a 0x4000-byte ROM is
    /// loaded twice, at 0x8000 and at 0xC000.
    pub fn init(&mut self, nes: &Nes)
        requires
            old(self).wf(),
            nes.header.info.prg_rom.len() == 0x8000 || nes.header.info.prg_rom.len() == 0x4000,
        ensures
            final(self)@ == prg_rom_loaded(old(self)@, nes.header.info.prg_rom@),
            final(self).ops() == old(self).ops(),
            final(self).wf(),
    {
        let prgs = &nes.header.info.prg_rom;
        let ghost s0 = self@;
        proof {
            crate::bus::cpu_map::lemma_cpu_map_len(self.bus.cpu_bus);
            assert(s0.bus.cpu.mem =~= loaded_upto(s0.bus.cpu.mem, prgs@, 0));
        }
        let mut i: usize = 0;
        while i < prgs.len()
            invariant
                self.wf(),
                self.ops() == old(self).ops(),
                prgs.len() == 0x8000 || prgs.len() == 0x4000,
                i <= prgs.len(),
                s0.bus.cpu.mem.len() == 0x10000,
                self@ == with_mem(s0, loaded_upto(s0.bus.cpu.mem, prgs@, i as int)),
            decreases prgs.len() - i,
        {
            let n = prgs[i];
            if prgs.len() == 0x8000 {
                self.bus.set((i + 0x8000) as u16, n);
            } else {
                self.bus.set((i + 0x8000) as u16, n);
                self.bus.set((i + 0xC000) as u16, n);
            }
            proof {
                assert(self@.bus.cpu.mem =~= loaded_upto(s0.bus.cpu.mem, prgs@, i + 1));
            }
            i += 1;
        }
        proof {
            assert(loaded_upto(s0.bus.cpu.mem, prgs@, prgs@.len() as int) =~= prg_loaded(
                s0.bus.cpu.mem,
                prgs@,
            ));
        }
    }
}

/// `n` DMA reads give `n` bytes.
pub proof fn lemma_dma_reads_len(b: BusView, page: u8, n: nat)
    ensures
        dma_reads(b, page, n).1.len() == n,
    decreases n,
{
    if n > 0 {
        lemma_dma_reads_len(b, page, (n - 1) as nat);
    }
}

/// One more DMA read: the next byte of the page is read from the bus as the
/// reads before it left it.
pub proof fn lemma_dma_step(b: BusView, page: u8, n: nat)
    requires
        n < 256,
    ensures
        dma_reads(b, page, n + 1).0 == bus_after_read(
            dma_reads(b, page, n).0,
            crate::util::word_of(n as u8, page),
        ),
        dma_reads(b, page, n + 1).1 == dma_reads(b, page, n).1.push(
            bus_read_value(dma_reads(b, page, n).0, crate::util::word_of(n as u8, page)),
        ),
        dma_ok(b, page, n + 1) ==> bus_readable(
            dma_reads(b, page, n).0,
            crate::util::word_of(n as u8, page),
        ),
{
    assert((n + 1 - 1) as nat == n);
}

/// Reads that can all be made can be made in part.
pub proof fn lemma_dma_ok_prefix(b: BusView, page: u8, n: nat, m: nat)
    requires
        dma_ok(b, page, n),
        m <= n,
    ensures
        dma_ok(b, page, m),
    decreases n,
{
    if m < n {
        lemma_dma_ok_prefix(b, page, (n - 1) as nat, m);
    }
}

} // verus!
