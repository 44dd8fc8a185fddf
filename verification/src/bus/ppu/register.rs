use vstd::prelude::*;

verus! {

/// The register after a write of `r`: the first write of a pair adds `r`
/// to the value, the second replaces the value with `r` as its high byte.
pub open spec fn write_twice_written(v: (bool, u16), r: u8) -> (bool, u16) {
    if v.0 {
        (false, (r * 256) as u16)
    } else {
        (true, (v.1 + r) as u16)
    }
}

/// A write can be made: the first write of a pair adds without overflow.
pub open spec fn write_twice_ok(v: (bool, u16), r: u8) -> bool {
    !v.0 ==> v.1 + r <= u16::MAX
}

/// A register written one byte at a time, two writes to a value.
#[derive(Debug, Clone)]
pub struct WriteTwiceRegister {
    write_flag: bool,
    pub addr: u16,
}

impl View for WriteTwiceRegister {
    /// Whether the next write is the second of a pair, and the value.
    type V = (bool, u16);

    closed spec fn view(&self) -> (bool, u16) {
        (self.write_flag, self.addr)
    }
}

impl Default for WriteTwiceRegister {
    fn default() -> (r: Self)
        ensures
            r@ == (false, 0u16),
    {
        Self::new()
    }
}

impl WriteTwiceRegister {
    pub fn new() -> (r: Self)
        ensures
            r@ == (false, 0u16),
    {
        Self { write_flag: false, addr: 0 }
    }

    pub fn toggle_flag(&mut self)
        ensures
            final(self)@ == (!old(self)@.0, old(self)@.1),
    {
        match self.write_flag {
            true => self.write_flag = false,
            false => self.write_flag = true,
        }
    }

    pub fn set(&mut self, r: u8)
        requires
            write_twice_ok(old(self)@, r),
        ensures
            final(self)@ == write_twice_written(old(self)@, r),
    {
        proof {
            crate::util::lemma_shift_high_byte(r as u16);
        }
        match self.write_flag {
            true => {
                self.addr = 0;
                self.addr += (r as u16) << 8;
            },
            false => self.addr += r as u16,
        }
        self.toggle_flag();
    }

    /// The value, once both writes of a pair were made.
    pub fn addr(&mut self) -> (r: u16)
        requires
            !old(self)@.0,
        ensures
            r == old(self)@.1,
            *final(self) == *old(self),
    {
        match self.write_flag {
            true => 0,
            false => self.addr,
        }
    }
}

/// Of a pair of writes from a register that waits for a first write, the
/// second decides the value: it becomes `second * 256`.
pub proof fn lemma_second_write_decides(a: u16, first: u8, second: u8)
    requires
        a + first <= u16::MAX,
    ensures
        write_twice_ok((false, a), first),
        write_twice_written(write_twice_written((false, a), first), second) == (false, (second
            * 256) as u16),
{
}


/// The register after the writes `bs`, in order, from `v`.
pub open spec fn write_twice_seq(v: (bool, u16), bs: Seq<u8>) -> (bool, u16)
    decreases bs.len(),
{
    if bs.len() == 0 {
        v
    } else {
        write_twice_written(write_twice_seq(v, bs.drop_last()), bs.last())
    }
}

/// Every write of `bs`, in order from `v`, can be made.
pub open spec fn write_twice_seq_ok(v: (bool, u16), bs: Seq<u8>) -> bool
    decreases bs.len(),
{
    bs.len() == 0 || (write_twice_seq_ok(v, bs.drop_last()) && write_twice_ok(
        write_twice_seq(v, bs.drop_last()),
        bs.last(),
    ))
}

/// From a fresh register, any run of writes can be made: after an odd
/// number the register waits for a second write and holds the previous
/// pair's high byte (none for the first write) plus the last byte; after an
/// even number it waits for a first write and holds the last byte as its
/// high byte.
pub proof fn lemma_write_twice_runs(bs: Seq<u8>)
    requires
        bs.len() >= 1,
    ensures
        write_twice_seq_ok((false, 0u16), bs),
        write_twice_seq((false, 0u16), bs).0 == (bs.len() % 2 == 1),
        bs.len() % 2 == 0 ==> write_twice_seq((false, 0u16), bs).1 == bs.last() * 256,
        bs.len() % 2 == 1 ==> write_twice_seq((false, 0u16), bs).1 == (if bs.len() >= 3 {
            bs[bs.len() - 2] * 256
        } else {
            0
        }) + bs.last(),
    decreases bs.len(),
{
    let p = bs.drop_last();
    if bs.len() >= 2 {
        lemma_write_twice_runs(p);
        assert(p.last() == bs[bs.len() - 2]);
    } else {
        assert(p.len() == 0);
        assert(write_twice_seq((false, 0u16), p) == (false, 0u16));
        assert(write_twice_seq_ok((false, 0u16), p));
    }
}
} // verus!
