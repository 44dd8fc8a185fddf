use vstd::prelude::*;

verus! {

/// The register after a write of `r`: the first write of a pair sets the
/// high byte and clears the low one, the second adds the low byte.
pub open spec fn write_twice_written(v: (bool, u16), r: u8) -> (bool, u16) {
    if v.0 {
        (false, (v.1 + r) as u16)
    } else {
        (true, (r * 256) as u16)
    }
}

/// A write can be made: the second write of a pair adds without overflow.
pub open spec fn write_twice_ok(v: (bool, u16), r: u8) -> bool {
    v.0 ==> v.1 + r <= u16::MAX
}

/// A register written one byte at a time, two writes to a value.
#[derive(Debug, Clone)]
pub struct WriteTwiceRegister {
    write_flag: bool,
    pub addr: u16,
}

impl View for WriteTwiceRegister {
    /// Whether the next write is the second of a pair, and the value.
    type V = (bool, u16);

    closed spec fn view(&self) -> (bool, u16) {
        (self.write_flag, self.addr)
    }
}

impl Default for WriteTwiceRegister {
    fn default() -> (r: Self)
        ensures
            r@ == (false, 0u16),
    {
        Self::new()
    }
}

impl WriteTwiceRegister {
    fn new() -> (r: Self)
        ensures
            r@ == (false, 0u16),
    {
        Self { write_flag: false, addr: 0 }
    }

    fn toggle_flag(&mut self)
        ensures
            final(self)@ == (!old(self)@.0, old(self)@.1),
    {
        match self.write_flag {
            true => self.write_flag = false,
            false => self.write_flag = true,
        }
    }

    fn set(&mut self, r: u8)
        requires
            write_twice_ok(old(self)@, r),
        ensures
            final(self)@ == write_twice_written(old(self)@, r),
    {
        proof {
            crate::util::lemma_shift_high_byte(r as u16);
        }
        match self.write_flag {
            true => {
                self.addr += r as u16;
            },
            false => {
                self.addr = 0;
                self.addr += (r as u16) << 8;
            },
        }
        self.toggle_flag();
    }

    /// The value, once both writes of a pair were made.
    pub fn addr(&mut self) -> (r: u16)
        requires
            !old(self)@.0,
        ensures
            r == old(self)@.1,
            *final(self) == *old(self),
    {
        match self.write_flag {
            true => 0,
            false => self.addr,
        }
    }
}

/// Two writes, high byte then low byte, from a register that waits for a
/// first write, leave the 16-bit value `hi * 256 + lo` and the register
/// waiting for a first write again.
pub proof fn lemma_write_high_then_low(a: u16, hi: u8, lo: u8)
    ensures
        write_twice_ok(write_twice_written((false, a), hi), lo),
        write_twice_written(write_twice_written((false, a), hi), lo) == (false, (hi * 256
            + lo) as u16),
{
}

} // verus!
