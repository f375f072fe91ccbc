use vstd::prelude::*;

verus! {

/// An in-memory register file that stands in for a device on a bus: every
/// register address `0..256` holds one byte, and the bus address is ignored.
#[derive(Clone, Copy, Debug, PartialEq, Eq)]
pub struct MockImuBus {
    pub registers: [u8; 256],
}

/// The register file after `data` is written from register `reg` upward.
pub open spec fn spec_written(regs: Seq<u8>, reg: int, data: Seq<u8>) -> Seq<u8> {
    Seq::new(
        regs.len(),
        |i: int|
            if reg <= i < reg + data.len() {
                data[i - reg]
            } else {
                regs[i]
            },
    )
}

impl MockImuBus {
    /// A register file with every register zero.
    pub fn new() -> (r: Self)
        ensures
            r.registers@ == Seq::new(256, |i: int| 0u8),
    {
        let r = MockImuBus { registers: [0u8; 256] };
        assert(r.registers@ =~= Seq::new(256, |i: int| 0u8));
        r
    }

    /// The value of register `reg`.
    pub fn read_register(&self, reg: u8) -> (r: u8)
        ensures
            r == self.registers@[reg as int],
    {
        self.registers[reg as usize]
    }

    /// Sets register `reg` to `value`, leaving every other register as it was.
    pub fn write_register(&mut self, reg: u8, value: u8)
        ensures
            final(self).registers@ == old(self).registers@.update(reg as int, value),
    {
        self.registers[reg as usize] = value;
    }

    /// The `len` registers from `reg` upward.
    pub fn read_registers(&self, reg: u8, len: usize) -> (r: Vec<u8>)
        requires
            reg + len <= 256,
        ensures
            r@ == self.registers@.subrange(reg as int, reg + len),
    {
        let mut r: Vec<u8> = Vec::new();
        let start: usize = reg as usize;
        let mut i: usize = 0;
        while i < len
            invariant
                start == reg,
                start + len <= 256,
                i <= len,
                r@ == self.registers@.subrange(start as int, start + i),
            decreases len - i,
        {
            r.push(self.registers[start + i]);
            i = i + 1;
            assert(r@ =~= self.registers@.subrange(start as int, start + i));
        }
        r
    }

    /// Writes `data` to the registers from `reg` upward, leaving every other
    /// register as it was.
    pub fn write_registers(&mut self, reg: u8, data: &[u8])
        requires
            reg + data@.len() <= 256,
        ensures
            final(self).registers@ == spec_written(old(self).registers@, reg as int, data@),
    {
        let start: usize = reg as usize;
        let mut i: usize = 0;
        while i < data.len()
            invariant
                start == reg,
                start + data@.len() <= 256,
                i <= data@.len(),
                self.registers@ == spec_written(
                    old(self).registers@,
                    reg as int,
                    data@.take(i as int),
                ),
            decreases data@.len() - i,
        {
            self.registers[start + i] = data[i];
            i = i + 1;
            assert(self.registers@ =~= spec_written(
                old(self).registers@,
                reg as int,
                data@.take(i as int),
            ));
        }
        assert(data@.take(data@.len() as int) =~= data@);
    }

    /// One bus transaction: with nothing to read, `write` is a register address
    /// followed by the bytes to store from there; otherwise `write` starts with the
    /// register address and `read_len` bytes are read from there.
    pub fn transfer(&mut self, write: &[u8], read_len: usize) -> (r: Vec<u8>)
        requires
            write@.len() >= 1,
            read_len == 0 ==> write@[0] + write@.len() - 1 <= 256,
            read_len > 0 ==> write@[0] + read_len <= 256,
        ensures
            read_len == 0 ==> final(self).registers@ == spec_written(
                old(self).registers@,
                write@[0] as int,
                write@.subrange(1, write@.len() as int),
            ) && r@.len() == 0,
            read_len > 0 ==> *final(self) == *old(self) && r@ == old(self).registers@.subrange(
                write@[0] as int,
                write@[0] + read_len,
            ),
    {
        let reg = write[0];
        if read_len == 0 {
            let data = slice_tail(write);
            self.write_registers(reg, data);
            Vec::new()
        } else {
            self.read_registers(reg, read_len)
        }
    }
}

/// Everything after the first element of a non-empty slice.
fn slice_tail(s: &[u8]) -> (r: &[u8])
    requires
        s@.len() >= 1,
    ensures
        r@ == s@.subrange(1, s@.len() as int),
{
    vstd::slice::slice_subrange(s, 1, s.len())
}

/// What a write stores is what a later read of the same registers returns, and
/// the registers outside the written range keep their values.
pub proof fn lemma_read_back_written(regs: Seq<u8>, reg: int, data: Seq<u8>)
    requires
        regs.len() == 256,
        0 <= reg,
        reg + data.len() <= 256,
    ensures
        spec_written(regs, reg, data).subrange(reg, reg + data.len()) == data,
        forall|i: int|
            0 <= i < 256 && !(reg <= i < reg + data.len()) ==> #[trigger] spec_written(
                regs,
                reg,
                data,
            )[i] == regs[i],
        spec_written(regs, reg, data).len() == 256,
{
    assert(spec_written(regs, reg, data).subrange(reg, reg + data.len()) =~= data);
}

} // verus!
