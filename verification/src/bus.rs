use vstd::prelude::*;

use crate::osal::{DError, Kernel};
use crate::regs::valid_reg_offset;

verus! {

/// The capability to perform 32-bit accesses to the device's memory-mapped
/// register block. The device facade owns the single authoritative instance;
/// every register access of the driver goes through it.
///
/// The model is observational: `read_value` is the word the next read of an
/// offset returns, and `after_read`/`after_write` are the observable states
/// after that access. Folding the hardware's autonomous behaviour into
/// `after_read` lets one state both live registers (a reset bit that
/// self-clears while polled, a cause register that clears when read) and
/// plain storage-like registers in the same vocabulary. Register accesses
/// are never elided and never reordered with each other, so the observation
/// order is the program order.
pub trait RegisterBlock: Sized {
    /// The word a read of the register at byte offset `off` returns now.
    /// The default leaves it unspecified; an implementation whose behaviour
    /// the driver's contracts should speak about overrides it.
    open spec fn read_value(&self, off: u64) -> u32 {
        vstd::pervasive::arbitrary()
    }

    /// The observable state after a read of the register at `off`.
    open spec fn after_read(&self, off: u64) -> Self {
        vstd::pervasive::arbitrary()
    }

    /// The observable state after writing `v` to the register at `off`.
    open spec fn after_write(&self, off: u64, v: u32) -> Self {
        vstd::pervasive::arbitrary()
    }

    /// Reads the 32-bit register at byte offset `off`.
    fn read_reg(&mut self, off: u64) -> (r: u32)
        requires
            valid_reg_offset(off),
        ensures
            r == old(self).read_value(off),
            *final(self) == old(self).after_read(off),
    ;

    /// Writes `v` to the 32-bit register at byte offset `off`.
    fn write_reg(&mut self, off: u64, v: u32)
        requires
            valid_reg_offset(off),
        ensures
            *final(self) == old(self).after_write(off, v),
    ;
}

/// The state of a register block after `n` consecutive reads of the
/// register at `off`.
pub open spec fn nth_state<B: RegisterBlock>(b: B, off: u64, n: nat) -> B
    decreases n,
{
    if n == 0 {
        b
    } else {
        nth_state(b, off, (n - 1) as nat).after_read(off)
    }
}

/// The word the `n`-th consecutive read of the register at `off` returns
/// (counting from 0).
pub open spec fn nth_read<B: RegisterBlock>(b: B, off: u64, n: nat) -> u32 {
    nth_state(b, off, n).read_value(off)
}

/// The `k`-th poll of the register at `off` is the first whose masked bits
/// all read clear.
pub open spec fn clears_at<B: RegisterBlock>(b: B, off: u64, mask: u32, k: nat) -> bool {
    &&& nth_read(b, off, k) & mask == 0
    &&& forall|j: nat| j < k ==> nth_read(b, off, j) & mask != 0
}

/// The poll budget an optional attempt count allows: an absent count leaves
/// the largest representable budget, which no real wait exhausts.
pub open spec fn poll_budget(try_count: Option<usize>) -> nat {
    match try_count {
        Some(n) => n as nat,
        None => usize::MAX as nat,
    }
}

/// The generic retry helper behind every interval-spaced hardware wait:
/// polls the register at `off` until its bits under `mask` all read clear,
/// sleeping `interval_ms` between attempts so the host can yield to other
/// work. It fails with `DError::Timeout` once the attempt budget is
/// exhausted, leaving the register observed exactly that many times; a
/// `try_count` of `None` stands for an indefinite retry and leaves the
/// largest representable budget.
pub(crate) fn wait_for<B: RegisterBlock, K: Kernel>(
    bus: &mut B,
    kernel: &mut K,
    off: u64,
    mask: u32,
    interval_ms: u64,
    try_count: Option<usize>,
) -> (r: Result<(), DError>)
    requires
        valid_reg_offset(off),
    ensures
        match r {
            Ok(()) => exists|k: nat|
                #[trigger] clears_at(*old(bus), off, mask, k) && k < poll_budget(try_count)
                    && *final(bus) == nth_state(*old(bus), off, k + 1) && final(kernel).sleeps()
                    == old(kernel).sleeps() + Seq::new(k, |i: int| interval_ms),
            Err(e) => {
                &&& e == DError::Timeout
                &&& forall|k: nat|
                    k < poll_budget(try_count) ==> nth_read(*old(bus), off, k) & mask != 0
                &&& *final(bus) == nth_state(*old(bus), off, poll_budget(try_count))
                &&& final(kernel).sleeps() == old(kernel).sleeps() + Seq::new(
                    poll_budget(try_count),
                    |i: int| interval_ms,
                )
            },
        },
{
    let ghost b0 = *bus;
    let ghost s0 = kernel.sleeps();
    let bound: usize = match try_count {
        Some(n) => n,
        None => usize::MAX,
    };
    let mut attempts: usize = 0;
    assert(s0 + Seq::new(0, |i: int| interval_ms) =~= s0);
    loop
        invariant
            valid_reg_offset(off),
            b0 == *old(bus),
            s0 == old(kernel).sleeps(),
            attempts <= bound,
            bound as nat == poll_budget(try_count),
            *bus == nth_state(b0, off, attempts as nat),
            forall|j: nat| j < attempts ==> nth_read(b0, off, j) & mask != 0,
            kernel.sleeps() == s0 + Seq::new(attempts as nat, |i: int| interval_ms),
        decreases bound - attempts,
    {
        if attempts >= bound {
            return Err(DError::Timeout);
        }
        let w = bus.read_reg(off);
        assert(w == nth_read(b0, off, attempts as nat));
        assert(*bus == nth_state(b0, off, attempts as nat + 1));
        if w & mask == 0 {
            assert(clears_at(b0, off, mask, attempts as nat));
            return Ok(());
        }
        kernel.sleep(interval_ms);
        assert(kernel.sleeps() =~= s0 + Seq::new(attempts as nat + 1, |i: int| interval_ms));
        attempts = attempts + 1;
    }
}

} // verus!
