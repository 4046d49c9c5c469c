//! A bare-metal driver core for an Intel-family Gigabit Ethernet controller
//! (MAC and PHY behind a memory-mapped register window). The driver owns no
//! platform services: register access and the sleep used between polls are
//! capabilities handed in by the host, so every protocol the driver runs —
//! reset, interrupt masking, link-status decode, MDIO transactions and the
//! bring-up sequence — is stated and checked against their contracts.

pub mod bus;
pub mod chip;
pub mod mac;
pub mod osal;
pub mod regs;
pub mod sim;

use vstd::prelude::*;

use crate::bus::{nth_read, nth_state, RegisterBlock};
use crate::mac::{reset_issued, spec_status_of, Mac, MacStatus};
use crate::osal::{DError, Kernel};
use crate::regs::{CTRL_REG, CTRL_RST_MASK, EICR_REG, EIMC_REG, STATUS_REG};

verus! {

/// The capability to allocate an address-space region for a BAR, returning
/// the assigned base address, or nothing when the space is exhausted. The
/// host's enumeration layer implements and consumes it; the core only
/// depends on the contract.
pub trait BarAllocator {
    fn alloc_memory32(&mut self, size: u32) -> Option<u32>;

    fn alloc_memory64(&mut self, size: u64) -> Option<u64>;
}

/// One of the three operations the bring-up sequence asks of the PHY
/// driver.
#[derive(Debug, Clone, Copy, PartialEq, Eq)]
pub enum PhyCall {
    PowerUp,
    EnableAutoNegotiation,
    WaitAutoNegotiationComplete,
}

/// The PHY driver the bring-up sequence delegates to. The PHY's register
/// map and negotiation algorithm are outside this core; an implementation
/// performs its work through the MDIO port of the MAC driver it is handed.
/// Each operation appends itself to the driver's audit trail of calls and
/// its result to the trail of outcomes, which is what the bring-up
/// sequence's ordering and error-propagation guarantees are stated over;
/// nothing else is promised of an implementation — in particular any
/// operation may fail.
pub trait PhyDriver<B: RegisterBlock>: Sized {
    /// The audit trail: every operation asked of this driver, oldest first.
    /// The default leaves it unspecified; an implementation the ordering
    /// guarantees should be read off overrides it.
    open spec fn calls(&self) -> Seq<PhyCall> {
        vstd::pervasive::arbitrary()
    }

    /// The result of each recorded operation, in the same order.
    open spec fn outcomes(&self) -> Seq<Result<(), DError>> {
        vstd::pervasive::arbitrary()
    }

    /// Powers up the PHY.
    fn power_up(&mut self, mac: &mut Mac<B>) -> (r: Result<(), DError>)
        ensures
            final(self).calls() == old(self).calls().push(PhyCall::PowerUp),
            final(self).outcomes() == old(self).outcomes().push(r),
    ;

    /// Enables PHY auto-negotiation.
    fn enable_auto_negotiation(&mut self, mac: &mut Mac<B>) -> (r: Result<(), DError>)
        ensures
            final(self).calls() == old(self).calls().push(PhyCall::EnableAutoNegotiation),
            final(self).outcomes() == old(self).outcomes().push(r),
    ;

    /// Waits for auto-negotiation to complete.
    fn wait_for_auto_negotiation_complete(&mut self, mac: &mut Mac<B>) -> (r: Result<(), DError>)
        ensures
            final(self).calls() == old(self).calls().push(PhyCall::WaitAutoNegotiationComplete),
            final(self).outcomes() == old(self).outcomes().push(r),
    ;
}

/// A unit-valued success is the one `Ok(())` value.
proof fn lemma_ok_unit(r: Result<(), DError>)
    requires
        r is Ok,
    ensures
        r == Ok::<(), DError>(()),
{
    let u = r->Ok_0;
    assert(u =~= ());
}

/// The identity check for this hardware family: true exactly for the Intel
/// vendor id with one of the recognized device ids.
pub open spec fn spec_vid_did_ok(vid: u16, did: u16) -> bool {
    vid == 0x8086 && (did == 0x10C9 || did == 0x1533)
}

/// The PHY operations of a complete bring-up, in order: power-up,
/// auto-negotiation enable, then the wait for its completion.
pub open spec fn bringup_calls() -> Seq<PhyCall> {
    seq![PhyCall::PowerUp, PhyCall::EnableAutoNegotiation, PhyCall::WaitAutoNegotiationComplete]
}

/// The observable register state after interrupts were disabled: the
/// mask-clear register written all-ones twice, then the cause register read
/// once to acknowledge latched causes.
pub open spec fn interrupts_disabled<B: RegisterBlock>(b: B) -> B {
    b.after_write(EIMC_REG, u32::MAX).after_write(EIMC_REG, u32::MAX).after_read(EICR_REG)
}

/// Whether a register block, with the reset command just issued, keeps the
/// self-clearing reset bit set through the whole 1000-poll budget — the
/// hardware behaviour on which `reset`, and with it the bring-up sequence,
/// times out.
pub open spec fn reset_never_completes<B: RegisterBlock>(b: B) -> bool {
    forall|k: nat| k < 1000 ==> nth_read(b, CTRL_REG, k) & CTRL_RST_MASK != 0
}

/// The device facade: one MAC driver and one PHY driver over the same
/// register block, wired together at construction without touching
/// hardware. The MAC driver is the single owner of the register-block
/// capability; the PHY driver reaches the hardware only through the MDIO
/// port it is handed per call.
pub struct Igb<B: RegisterBlock, P: PhyDriver<B>> {
    pub mac: Mac<B>,
    pub phy: P,
}

impl<B: RegisterBlock, P: PhyDriver<B>> Igb<B, P> {
    /// The observable state of the underlying register block.
    pub open spec fn model(&self) -> B {
        self.mac.model()
    }

    /// The audit trail of the PHY driver.
    pub open spec fn phy_calls(&self) -> Seq<PhyCall> {
        self.phy.calls()
    }

    /// The outcome of each recorded PHY operation, in the same order.
    pub open spec fn phy_outcomes(&self) -> Seq<Result<(), DError>> {
        self.phy.outcomes()
    }

    /// Wires a MAC driver over `bus` together with `phy`; no hardware is
    /// touched.
    pub fn new(bus: B, phy: P) -> (r: Result<Self, DError>)
        ensures
            r matches Ok(ig) && ig.model() == bus && ig.phy_calls() == phy.calls()
                && ig.phy_outcomes() == phy.outcomes(),
    {
        Ok(Igb { mac: Mac::new(bus), phy })
    }

    /// The bring-up sequence: disable interrupts, reset the MAC under its
    /// bounded wait, disable interrupts again (reset may re-latch spurious
    /// causes), then delegate to the PHY driver: power the PHY up and enable
    /// auto-negotiation (the link setup), and wait for auto-negotiation to
    /// complete. Every step is fail-fast: the first error short-circuits the
    /// remaining steps and is returned verbatim — in particular a reset
    /// timeout returns `Timeout` with the PHY never asked to do anything,
    /// and a PHY step's error comes back unchanged, with every earlier PHY
    /// step recorded as having succeeded.
    pub fn open<K: Kernel>(&mut self, kernel: &mut K) -> (r: Result<(), DError>)
        ensures
            r is Ok ==> final(self).phy_calls() == old(self).phy_calls() + bringup_calls()
                && final(self).phy_outcomes() == old(self).phy_outcomes() + seq![
                Ok::<(), DError>(()),
                Ok::<(), DError>(()),
                Ok::<(), DError>(()),
            ],
            r matches Err(e) ==> {
                ||| {
                    &&& e == DError::Timeout
                    &&& final(self).phy_calls() == old(self).phy_calls()
                    &&& final(self).phy_outcomes() == old(self).phy_outcomes()
                }
                ||| exists|n: int|
                    1 <= n <= 3 && final(self).phy_calls() == old(self).phy_calls()
                        + #[trigger] bringup_calls().take(n) && final(self).phy_outcomes() == old(
                        self,
                    ).phy_outcomes() + Seq::new((n - 1) as nat, |i: int| Ok::<(), DError>(())).push(
                        Err(e),
                    )
            },
            !reset_never_completes(reset_issued(interrupts_disabled(old(self).model())))
                ==> exists|n: int|
                1 <= n <= 3 && final(self).phy_calls() == old(self).phy_calls()
                    + #[trigger] bringup_calls().take(n),
            reset_never_completes(reset_issued(interrupts_disabled(old(self).model()))) ==> {
                &&& r == Err::<(), DError>(DError::Timeout)
                &&& final(self).phy_calls() == old(self).phy_calls()
                &&& final(self).phy_outcomes() == old(self).phy_outcomes()
                &&& final(self).model() == nth_state(
                    reset_issued(interrupts_disabled(old(self).model())),
                    CTRL_REG,
                    1000,
                )
            },
    {
        self.mac.disable_interrupts();
        let ghost b2 = reset_issued(self.mac.model());
        let reset_result = self.mac.reset(kernel);
        if let Err(e) = reset_result {
            return Err(e);
        }
        proof {
            // The reset came back: some budgeted poll read the reset bit
            // clear, so this is no run on which every budgeted poll reads
            // it set.
            assert(!reset_never_completes(b2));
        }
        self.mac.disable_interrupts();
        let ghost calls0 = self.phy.calls();
        let ghost outs0 = self.phy.outcomes();
        let setup_result = self.setup_phy_and_the_link();
        if let Err(e) = setup_result {
            proof {
                if self.phy.calls() == calls0.push(PhyCall::PowerUp) {
                    assert(calls0.push(PhyCall::PowerUp) =~= calls0 + bringup_calls().take(1));
                    assert(outs0.push(Err::<(), DError>(e)) =~= outs0 + Seq::new(
                        0,
                        |i: int| Ok::<(), DError>(()),
                    ).push(Err(e)));
                } else {
                    assert(calls0.push(PhyCall::PowerUp).push(PhyCall::EnableAutoNegotiation)
                        =~= calls0 + bringup_calls().take(2));
                    assert(outs0.push(Ok::<(), DError>(())).push(Err::<(), DError>(e)) =~= outs0
                        + Seq::new(1, |i: int| Ok::<(), DError>(())).push(Err(e)));
                }
            }
            return Err(e);
        }
        let wait_result = self.phy.wait_for_auto_negotiation_complete(&mut self.mac);
        proof {
            assert(calls0.push(PhyCall::PowerUp).push(PhyCall::EnableAutoNegotiation).push(
                PhyCall::WaitAutoNegotiationComplete,
            ) =~= calls0 + bringup_calls());
            assert(bringup_calls().take(3) =~= bringup_calls());
        }
        if let Err(e) = wait_result {
            proof {
                assert(outs0.push(Ok::<(), DError>(())).push(Ok::<(), DError>(())).push(
                    Err::<(), DError>(e),
                ) =~= outs0 + Seq::new(2, |i: int| Ok::<(), DError>(())).push(Err(e)));
            }
            return Err(e);
        }
        proof {
            lemma_ok_unit(wait_result);
            assert(outs0.push(Ok::<(), DError>(())).push(Ok::<(), DError>(())).push(
                Ok::<(), DError>(()),
            ) =~= outs0 + seq![Ok::<(), DError>(()), Ok::<(), DError>(()), Ok::<(), DError>(())]);
        }
        Ok(())
    }

    /// Powers up the PHY and enables auto-negotiation, fail-fast: the
    /// second step runs only when the first succeeded, and the first error
    /// is returned verbatim.
    pub fn setup_phy_and_the_link(&mut self) -> (r: Result<(), DError>)
        ensures
            r is Ok ==> final(self).phy_calls() == old(self).phy_calls().push(
                PhyCall::PowerUp,
            ).push(PhyCall::EnableAutoNegotiation) && final(self).phy_outcomes() == old(
                self,
            ).phy_outcomes().push(Ok::<(), DError>(())).push(Ok::<(), DError>(())),
            r matches Err(e) ==> {
                ||| {
                    &&& final(self).phy_calls() == old(self).phy_calls().push(PhyCall::PowerUp)
                    &&& final(self).phy_outcomes() == old(self).phy_outcomes().push(
                        Err::<(), DError>(e),
                    )
                }
                ||| {
                    &&& final(self).phy_calls() == old(self).phy_calls().push(
                        PhyCall::PowerUp,
                    ).push(PhyCall::EnableAutoNegotiation)
                    &&& final(self).phy_outcomes() == old(self).phy_outcomes().push(
                        Ok::<(), DError>(()),
                    ).push(Err::<(), DError>(e))
                }
            },
    {
        let power_result = self.phy.power_up(&mut self.mac);
        if let Err(e) = power_result {
            return Err(e);
        }
        proof {
            lemma_ok_unit(power_result);
        }
        let enable_result = self.phy.enable_auto_negotiation(&mut self.mac);
        if let Err(e) = enable_result {
            return Err(e);
        }
        proof {
            lemma_ok_unit(enable_result);
        }
        Ok(())
    }

    /// True only for the vendor id identifying this hardware family and a
    /// device id drawn from its recognized set; the external enumerator
    /// uses it to decide whether to construct this facade for a discovered
    /// PCI function.
    pub fn check_vid_did(vid: u16, did: u16) -> (r: bool)
        ensures
            r == spec_vid_did_ok(vid, did),
    {
        vid == 0x8086 && (did == 0x10C9 || did == 0x1533)
    }

    /// The live link status; may be called at any time after construction
    /// and simply reflects the STATUS register.
    pub fn status(&mut self) -> (r: MacStatus)
        ensures
            r == spec_status_of(old(self).model()),
            final(self).model() == old(self).model().after_read(STATUS_REG),
    {
        self.mac.status()
    }
}

} // verus!
