use vstd::prelude::*;

verus! {

/// The processor status flags as plain booleans.
pub struct PFlags {
    pub carry: bool,
    pub zero: bool,
    pub interrupt: bool,
    pub decimal: bool,
    pub break_mode: bool,
    pub reserved: bool,
    pub overflow: bool,
    pub negative: bool,
}

/// Bit `k` of a byte.
pub open spec fn bit(n: u8, k: u8) -> bool {
    n & (1u8 << k) != 0
}

/// `k` where the flag is set, else 0.
pub open spec fn flag_value(b: bool, k: int) -> int {
    if b {
        k
    } else {
        0
    }
}

/// The byte whose bits hold the given flags, `c` in bit 0 up to `n` in bit 7.
pub open spec fn byte_of_bits(
    c: bool,
    z: bool,
    i: bool,
    d: bool,
    b: bool,
    r: bool,
    v: bool,
    n: bool,
) -> u8 {
    (flag_value(c, 1) + flag_value(z, 2) + flag_value(i, 4) + flag_value(d, 8) + flag_value(b, 16)
        + flag_value(r, 32) + flag_value(v, 64) + flag_value(n, 128)) as u8
}

/// The byte whose bits 0..=7 are the flags, carry in bit 0, negative in bit 7.
pub open spec fn flags_to_byte(f: PFlags) -> u8 {
    byte_of_bits(
        f.carry,
        f.zero,
        f.interrupt,
        f.decimal,
        f.break_mode,
        f.reserved,
        f.overflow,
        f.negative,
    )
}

/// The flags that a write of `n` to the status register leaves.  Bit 5 is
/// not read: the reserved flag takes bit 4, as the break flag does.
pub open spec fn flags_from_byte(n: u8) -> PFlags {
    PFlags {
        carry: n & 1 != 0,
        zero: n & 2 != 0,
        interrupt: n & 4 != 0,
        decimal: n & 8 != 0,
        break_mode: n & 16 != 0,
        reserved: n & 16 != 0,
        overflow: n & 64 != 0,
        negative: n & 128 != 0,
    }
}

/// The processor status register.
#[derive(Debug, Clone, Copy)]
pub struct P {
    carry: bool,
    zero: bool,
    interrupt: bool,
    decimal: bool,
    break_mode: bool,
    reserved: bool,
    overflow: bool,
    negative: bool,
}

impl View for P {
    type V = PFlags;

    closed spec fn view(&self) -> PFlags {
        PFlags {
            carry: self.carry,
            zero: self.zero,
            interrupt: self.interrupt,
            decimal: self.decimal,
            break_mode: self.break_mode,
            reserved: self.reserved,
            overflow: self.overflow,
            negative: self.negative,
        }
    }
}

impl Default for P {
    fn default() -> (r: Self)
        ensures
            r@ == P::initial(),
    {
        Self::new()
    }
}

impl P {
    /// Power-on flags: interrupts disabled, reserved bit set.
    pub open spec fn initial() -> PFlags {
        PFlags {
            carry: false,
            zero: false,
            interrupt: true,
            decimal: false,
            break_mode: false,
            reserved: true,
            overflow: false,
            negative: false,
        }
    }

    pub fn new() -> (r: Self)
        ensures
            r@ == P::initial(),
    {
        Self {
            carry: false,
            zero: false,
            interrupt: true,
            decimal: false,
            break_mode: false,
            reserved: true,
            overflow: false,
            negative: false,
        }
    }

    /// Loads all flags from a byte, see `flags_from_byte`.
    pub fn set(&mut self, n: u8)
        ensures
            final(self)@ == flags_from_byte(n),
    {
        self.set_carry((n & 0b00000001) != 0);
        self.set_zero((n & 0b00000010) != 0);
        self.set_interrupt((n & 0b00000100) != 0);
        self.set_decimal((n & 0b00001000) != 0);
        self.set_break_mode((n & 0b00010000) != 0);
        self.set_reserved((n & 0b00010000) != 0);
        self.set_overflow((n & 0b01000000) != 0);
        self.set_negative((n & 0b10000000) != 0);
    }

    pub fn get(&self) -> (r: u8)
        ensures
            r == flags_to_byte(self@),
    {
        self.to_n()
    }

    pub fn to_n(&self) -> (r: u8)
        ensures
            r == flags_to_byte(self@),
    {
        let ghost s1 = flag_value(self.carry, 1) + flag_value(self.zero, 2);
        let ghost s2 = s1 + flag_value(self.interrupt, 4) + flag_value(self.decimal, 8);
        let ghost s3 = s2 + flag_value(self.break_mode, 16) + flag_value(self.reserved, 32);
        let ghost s4 = s3 + flag_value(self.overflow, 64) + flag_value(self.negative, 128);
        let mut n: u8 = 0;
        n += self.get_carry() as u8 * 0b00000001;
        n += self.get_zero() as u8 * 0b00000010;
        assert(n == s1);
        n += self.get_interrupt() as u8 * 0b00000100;
        n += self.get_decimal() as u8 * 0b00001000;
        assert(n == s2);
        n += self.get_break_mode() as u8 * 0b00010000;
        n += self.get_reserved() as u8 * 0b00100000;
        assert(n == s3);
        n += self.get_overflow() as u8 * 0b01000000;
        n += self.get_negative() as u8 * 0b10000000;
        assert(n == s4);
        assert(0 <= s4 <= 255);
        n
    }

    pub fn set_carry(&mut self, b: bool)
        ensures
            final(self)@ == (PFlags { carry: b, ..old(self)@ }),
    {
        self.carry = b;
    }

    pub fn get_carry(&self) -> (r: bool)
        ensures
            r == self@.carry,
    {
        self.carry
    }

    pub fn set_zero(&mut self, b: bool)
        ensures
            final(self)@ == (PFlags { zero: b, ..old(self)@ }),
    {
        self.zero = b;
    }

    pub fn get_zero(&self) -> (r: bool)
        ensures
            r == self@.zero,
    {
        self.zero
    }

    pub fn set_interrupt(&mut self, b: bool)
        ensures
            final(self)@ == (PFlags { interrupt: b, ..old(self)@ }),
    {
        self.interrupt = b;
    }

    pub fn get_interrupt(&self) -> (r: bool)
        ensures
            r == self@.interrupt,
    {
        self.interrupt
    }

    pub fn set_decimal(&mut self, b: bool)
        ensures
            final(self)@ == (PFlags { decimal: b, ..old(self)@ }),
    {
        self.decimal = b;
    }

    pub fn get_decimal(&self) -> (r: bool)
        ensures
            r == self@.decimal,
    {
        self.decimal
    }

    pub fn set_break_mode(&mut self, b: bool)
        ensures
            final(self)@ == (PFlags { break_mode: b, ..old(self)@ }),
    {
        self.break_mode = b;
    }

    pub fn get_break_mode(&self) -> (r: bool)
        ensures
            r == self@.break_mode,
    {
        self.break_mode
    }

    pub fn set_reserved(&mut self, n: bool)
        ensures
            final(self)@ == (PFlags { reserved: n, ..old(self)@ }),
    {
        self.reserved = n;
    }

    pub fn get_reserved(&self) -> (r: bool)
        ensures
            r == self@.reserved,
    {
        self.reserved
    }

    pub fn set_overflow(&mut self, b: bool)
        ensures
            final(self)@ == (PFlags { overflow: b, ..old(self)@ }),
    {
        self.overflow = b;
    }

    pub fn get_overflow(&self) -> (r: bool)
        ensures
            r == self@.overflow,
    {
        self.overflow
    }

    pub fn set_negative(&mut self, b: bool)
        ensures
            final(self)@ == (PFlags { negative: b, ..old(self)@ }),
    {
        self.negative = b;
    }

    pub fn get_negative(&self) -> (r: bool)
        ensures
            r == self@.negative,
    {
        self.negative
    }
}

/// Reading the status register back after loading it with `n` gives `n`
/// with bit 5 replaced by bit 4: the reserved flag is loaded from bit 4.
pub proof fn lemma_status_load_then_read(n: u8)
    ensures
        flags_to_byte(flags_from_byte(n)) == (n & 0xDF) | ((n & 0x10) << 1u8),
{
    assert(byte_of_bits(
        n & 1 != 0,
        n & 2 != 0,
        n & 4 != 0,
        n & 8 != 0,
        n & 16 != 0,
        n & 16 != 0,
        n & 64 != 0,
        n & 128 != 0,
    ) == (n & 0xDF) | ((n & 0x10) << 1u8)) by (bit_vector);
}

/// Loading the status register with the byte it reads as leaves every flag
/// as it was but the reserved one, which takes the break flag; so every
/// flag is kept whenever the two are equal.
pub proof fn lemma_status_read_then_load(f: PFlags)
    ensures
        flags_from_byte(flags_to_byte(f)) == (PFlags { reserved: f.break_mode, ..f }),
        f.reserved == f.break_mode ==> flags_from_byte(flags_to_byte(f)) == f,
{
    let c = f.carry;
    let z = f.zero;
    let i = f.interrupt;
    let d = f.decimal;
    let b = f.break_mode;
    let r = f.reserved;
    let v = f.overflow;
    let ng = f.negative;
    let n = byte_of_bits(c, z, i, d, b, r, v, ng);
    assert((n & 1 != 0 <==> c) && (n & 2 != 0 <==> z) && (n & 4 != 0 <==> i) && (n & 8 != 0
        <==> d) && (n & 16 != 0 <==> b) && (n & 64 != 0 <==> v) && (n & 128 != 0 <==> ng))
        by (bit_vector)
        requires
            n == byte_of_bits(c, z, i, d, b, r, v, ng),
    ;
}

/// The registers of the processor as plain values.
pub struct RegisterView {
    pub a: u8,
    pub x: u8,
    pub y: u8,
    pub s: u8,
    pub p: PFlags,
    pub pc: u16,
}

/// The processor registers.
#[derive(Debug, Clone, Copy)]
pub struct Register {
    a: u8,
    x: u8,
    y: u8,
    s: u8,
    p: P,
    pc: u16,
}

impl View for Register {
    type V = RegisterView;

    closed spec fn view(&self) -> RegisterView {
        RegisterView { a: self.a, x: self.x, y: self.y, s: self.s, p: self.p@, pc: self.pc }
    }
}

impl Default for Register {
    fn default() -> (r: Self)
        ensures
            r@ == Register::initial(),
    {
        Self::new()
    }
}

impl Register {
    /// Power-on registers: all zero but the stack pointer at 0xFF.
    pub open spec fn initial() -> RegisterView {
        RegisterView { a: 0, x: 0, y: 0, s: 0xFF, p: P::initial(), pc: 0 }
    }

    pub fn new() -> (r: Self)
        ensures
            r@ == Register::initial(),
    {
        Self { a: 0, x: 0, y: 0, s: u8::MAX, p: P::default(), pc: 0 }
    }

    pub fn set_a(&mut self, n: u8)
        ensures
            final(self)@ == (RegisterView { a: n, ..old(self)@ }),
    {
        self.a = n;
    }

    pub fn get_a(&self) -> (r: u8)
        ensures
            r == self@.a,
    {
        self.a
    }

    pub fn set_x(&mut self, n: u8)
        ensures
            final(self)@ == (RegisterView { x: n, ..old(self)@ }),
    {
        self.x = n;
    }

    pub fn get_x(&self) -> (r: u8)
        ensures
            r == self@.x,
    {
        self.x
    }

    pub fn set_y(&mut self, n: u8)
        ensures
            final(self)@ == (RegisterView { y: n, ..old(self)@ }),
    {
        self.y = n;
    }

    pub fn get_y(&self) -> (r: u8)
        ensures
            r == self@.y,
    {
        self.y
    }

    pub fn set_s(&mut self, n: u8)
        ensures
            final(self)@ == (RegisterView { s: n, ..old(self)@ }),
    {
        self.s = n;
    }

    pub fn get_s(&self) -> (r: u8)
        ensures
            r == self@.s,
    {
        self.s
    }

    pub fn set_p(&mut self, n: u8)
        ensures
            final(self)@ == (RegisterView { p: flags_from_byte(n), ..old(self)@ }),
    {
        self.p.set(n);
    }

    pub fn get_p(&self) -> (r: u8)
        ensures
            r == flags_to_byte(self@.p),
    {
        self.p.get()
    }

    pub fn access_p(&self) -> (r: &P)
        ensures
            r@ == self@.p,
    {
        &self.p
    }

    pub fn mut_access_p(&mut self) -> (r: &mut P)
        ensures
            r@ == old(self)@.p,
            final(self)@ == (RegisterView { p: final(r)@, ..old(self)@ }),
    {
        &mut self.p
    }

    /// Replaces the status flags.
    pub fn set_flags(&mut self, p: P)
        ensures
            final(self)@ == (RegisterView { p: p@, ..old(self)@ }),
    {
        self.p = p;
    }

    pub fn set_pc(&mut self, n: u16)
        ensures
            final(self)@ == (RegisterView { pc: n, ..old(self)@ }),
    {
        self.pc = n;
    }

    pub fn get_pc(&self) -> (r: u16)
        ensures
            r == self@.pc,
    {
        self.pc
    }

    pub fn inc_pc(&mut self, n: u16)
        requires
            old(self)@.pc + n <= u16::MAX,
        ensures
            final(self)@ == (RegisterView { pc: (old(self)@.pc + n) as u16, ..old(self)@ }),
    {
        self.pc += n;
    }

    pub fn dec_pc(&mut self, n: u16)
        requires
            old(self)@.pc >= n,
        ensures
            final(self)@ == (RegisterView { pc: (old(self)@.pc - n) as u16, ..old(self)@ }),
    {
        self.pc -= n;
    }
}

} // verus!
