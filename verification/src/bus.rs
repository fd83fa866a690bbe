//! The two capabilities the driver consumes: an I2C bus and a blocking delay.
//!
//! The bus is modeled as a register file held by the addressed peripheral: a
//! write transaction `[reg, d0, d1, ...]` stores `d0, d1, ...` at the
//! auto-incrementing register addresses `reg, reg + 1, ...`, and a
//! write-then-read transaction returns the bytes stored at such a range. A
//! ghost transaction log records every transaction in order, so contracts can
//! also say exactly which bus traffic an operation produces.
//!
//! Every proof about register contents in this crate rests on the contracts of
//! [`I2cBus`]: an implementation over a real transport is trusted to drive a
//! peripheral that behaves this way.
//! The model idealizes registers that the chip rewrites on its own (a reset
//! write, the open/short diagnostic block). [`RegisterFileBus`] is a verified
//! in-memory implementation that meets the contracts exactly.

use vstd::prelude::*;

verus! {

/// One bus transaction, as recorded in the ghost log of an [`I2cBus`].
pub enum Txn {
    /// A write of `data` (register address followed by payload bytes) to the
    /// peripheral at 7-bit address `addr`.
    Write { addr: u8, data: Seq<u8> },
    /// A write of the register address `reg` followed by a read of `n` bytes
    /// from the peripheral at 7-bit address `addr`.
    WriteRead { addr: u8, reg: u8, n: nat },
}

/// The register file after writing `data` to the auto-incrementing addresses
/// `start, start + 1, ...`.
pub open spec fn write_regs(regs: Map<u8, u8>, start: int, data: Seq<u8>) -> Map<u8, u8>
    decreases data.len(),
{
    if data.len() == 0 {
        regs
    } else {
        write_regs(regs.insert(start as u8, data[0]), start + 1, data.skip(1))
    }
}

/// The `n` bytes stored at the auto-incrementing addresses `start, start + 1, ...`.
pub open spec fn read_regs(regs: Map<u8, u8>, start: int, n: nat) -> Seq<u8> {
    Seq::new(n, |i: int| regs[(start + i) as u8])
}

/// Pointwise description of [`write_regs`]: inside the written range the last
/// written byte stands, outside it the register file is unchanged.
pub proof fn lemma_write_regs(regs: Map<u8, u8>, start: int, data: Seq<u8>)
    requires
        0 <= start,
        start + data.len() <= 256,
    ensures
        forall|r: u8|
            #[trigger] write_regs(regs, start, data)[r] == if start <= r < start + data.len() {
                data[r - start]
            } else {
                regs[r]
            },
        forall|r: u8|
            #[trigger] write_regs(regs, start, data).dom().contains(r) <==> (regs.dom().contains(r)
                || start <= r < start + data.len()),
    decreases data.len(),
{
    if data.len() > 0 {
        let regs1 = regs.insert(start as u8, data[0]);
        let rest = data.skip(1);
        lemma_write_regs(regs1, start + 1, rest);
        assert(write_regs(regs, start, data) == write_regs(regs1, start + 1, rest));
        assert(start as u8 as int == start);
        assert forall|r: u8|
            #[trigger] write_regs(regs, start, data)[r] == if start <= r < start + data.len() {
                data[r - start]
            } else {
                regs[r]
            } by {
            if start + 1 <= r < start + data.len() {
                assert(rest[r - (start + 1)] == data[r - start]);
            } else if r == start {
                assert(write_regs(regs1, start + 1, rest)[r] == regs1[r]);
                assert(regs1[r] == data[0]);
            }
        }
    }
}

/// A write of a single byte to a single register is a plain map update.
pub proof fn lemma_write_one(regs: Map<u8, u8>, reg: u8, value: u8)
    ensures
        write_regs(regs, reg as int, seq![value]) == regs.insert(reg, value),
{
    assert(seq![value].skip(1) =~= Seq::<u8>::empty());
    assert(write_regs(regs.insert(reg, value), reg as int + 1, seq![value].skip(1))
        == regs.insert(reg, value));
}

/// The transactional byte-oriented bus the driver runs on.
///
/// `regs` is the addressed peripheral's register file and `log` the history of
/// transactions issued so far; both are ghost views of the implementation.
/// Nothing is promised when a transaction fails: the peripheral must then be
/// assumed to be in an indeterminate state.
pub trait I2cBus: Sized {
    /// The transport's own error, passed through to the driver's callers.
    type BusError;

    /// The addressed peripheral's register file.
    spec fn regs(&self) -> Map<u8, u8>;

    /// Every transaction issued so far, oldest first.
    spec fn log(&self) -> Seq<Txn>;

    /// Write `buf` (register address followed by payload) to the peripheral
    /// at 7-bit address `addr` in one transaction.
    fn write(&mut self, addr: u8, buf: &[u8]) -> (r: Result<(), Self::BusError>)
        requires
            buf@.len() >= 1,
            buf@[0] as int + buf@.len() as int <= 257,
        ensures
            r is Ok ==> final (self).regs() == write_regs(
                old(self).regs(),
                buf@[0] as int,
                buf@.skip(1),
            ),
            r is Ok ==> final (self).log() == old(self).log().push(
                Txn::Write { addr, data: buf@ },
            ),
    ;

    /// Write the register address `reg`, then read `n` bytes, in one combined
    /// transaction with the peripheral at 7-bit address `addr`.
    fn write_read(&mut self, addr: u8, reg: u8, n: usize) -> (r: Result<
        Vec<u8>,
        Self::BusError,
    >)
        requires
            reg as int + n as int <= 256,
        ensures
            r is Ok ==> final (self).regs() == old(self).regs(),
            r is Ok ==> r->Ok_0@ == read_regs(old(self).regs(), reg as int, n as nat),
            r is Ok ==> final (self).log() == old(self).log().push(
                Txn::WriteRead { addr, reg, n: n as nat },
            ),
    ;
}

/// A blocking delay of millisecond granularity.
///
/// An implementation must genuinely block for at least the requested number of
/// milliseconds; one that returns early leaves the chip in an undefined state,
/// which no contract here reports.
pub trait DelayProvider: Sized {
    /// Block for at least `ms` milliseconds.
    fn delay_ms(&mut self, ms: u8);
}

/// The error type of [`RegisterFileBus`]; never constructed.
#[derive(Clone, Copy, Debug)]
pub struct NoFault;

/// An in-memory bus: 256 byte-wide registers, every transaction succeeds.
///
/// It meets the [`I2cBus`] contracts by proof, and stands in for the real
/// transport in tests.
pub struct RegisterFileBus {
    mem: Vec<u8>,
    history: Ghost<Seq<Txn>>,
}

impl RegisterFileBus {
    #[verifier::type_invariant]
    spec fn wf(self) -> bool {
        self.mem@.len() == 256
    }

    /// A bus whose registers are all zero and whose log is empty.
    pub fn new() -> (r: Self)
        ensures
            forall|a: u8| r.regs()[a] == 0u8,
            r.log() == Seq::<Txn>::empty(),
    {
        RegisterFileBus { mem: vec![0u8; 256], history: Ghost(Seq::empty()) }
    }

    /// The byte currently stored at register `addr`.
    pub fn reg(&self, addr: u8) -> (v: u8)
        ensures
            v == self.regs()[addr],
    {
        proof {
            use_type_invariant(self);
        }
        self.mem[addr as usize]
    }
}

impl I2cBus for RegisterFileBus {
    type BusError = NoFault;

    closed spec fn regs(&self) -> Map<u8, u8> {
        Map::new(|a: u8| true, |a: u8| self.mem@[a as int])
    }

    closed spec fn log(&self) -> Seq<Txn> {
        self.history@
    }

    fn write(&mut self, addr: u8, buf: &[u8]) -> (r: Result<(), NoFault>)
        ensures
            r is Ok,
    {
        proof {
            use_type_invariant(&*self);
        }
        let ghost pre = *self;
        let reg0: u8 = buf[0];
        let len: usize = buf.len();
        let mut i: usize = 1;
        while i < len
            invariant
                1 <= i <= len,
                len == buf@.len(),
                reg0 == buf@[0],
                reg0 as int + len as int <= 257,
                self.mem@.len() == 256,
                self.history == pre.history,
                forall|a: u8|
                    reg0 <= a < reg0 + (i - 1) ==> #[trigger] self.mem@[a as int] == buf@[a - reg0
                        + 1],
                forall|a: u8|
                    !(reg0 <= a < reg0 + (i - 1)) ==> #[trigger] self.mem@[a as int]
                        == pre.mem@[a as int],
            decreases len - i,
        {
            let a: u8 = reg0 + ((i - 1) as u8);
            self.mem[a as usize] = buf[i];
            i += 1;
        }
        self.history = Ghost(pre.history@.push(Txn::Write { addr, data: buf@ }));
        proof {
            lemma_write_regs(pre.regs(), reg0 as int, buf@.skip(1));
            assert(self.regs() =~= write_regs(pre.regs(), buf@[0] as int, buf@.skip(1)));
        }
        Ok(())
    }

    fn write_read(&mut self, addr: u8, reg: u8, n: usize) -> (r: Result<Vec<u8>, NoFault>)
        ensures
            r is Ok,
    {
        proof {
            use_type_invariant(&*self);
        }
        let ghost pre = *self;
        let mut out: Vec<u8> = Vec::new();
        let mut i: usize = 0;
        while i < n
            invariant
                0 <= i <= n,
                reg as int + n as int <= 256,
                *self == pre,
                self.mem@.len() == 256,
                out@.len() == i,
                forall|j: int| 0 <= j < i ==> #[trigger] out@[j] == self.mem@[reg + j],
            decreases n - i,
        {
            out.push(self.mem[reg as usize + i]);
            i += 1;
        }
        self.history = Ghost(pre.history@.push(Txn::WriteRead { addr, reg, n: n as nat }));
        proof {
            assert(out@ =~= read_regs(pre.regs(), reg as int, n as nat));
        }
        Ok(out)
    }
}

/// A delay that does not block; only for driving the in-memory bus, where no
/// chip timing exists.
pub struct NoopDelay;

impl DelayProvider for NoopDelay {
    fn delay_ms(&mut self, _ms: u8) {
    }
}

} // verus!
