use vstd::prelude::*;

use crate::bus::{nth_read, nth_state, RegisterBlock};
use crate::mac::{
    mdic_done_error_at, mdic_done_ready_at, mdic_pending, reset_issued, Mac,
};
use crate::osal::{DError, Kernel};
use crate::{PhyCall, PhyDriver};
use crate::regs::{
    set_field, spec_get_field, spec_set_field, CTRL_EXT_REG, CTRL_PHY_RST_MASK, CTRL_REG,
    CTRL_RST_MASK, EICR_REG, EIMC_REG, EIMS_REG, MDIC_DATA_LSB, MDIC_DATA_WIDTH, MDIC_E_MASK,
    MDIC_READY_MASK, MDIC_REG, RCTL_REG, STATUS_REG, TCTL_REG,
};

verus! {

/// A register model of the controller: the registers the driver drives, with
/// the autonomous behaviours the driver's protocols depend on — a reset bit
/// that self-clears after a configurable number of polls, an MDIC
/// transaction that completes ready or in error after a configurable number
/// of polls, and a cause register that clears when read. It obeys the same
/// `RegisterBlock` contract as real hardware, which makes the driver's
/// protocol logic checkable against chosen hardware behaviours.
#[derive(Debug, Clone, Copy, PartialEq, Eq)]
pub struct SimRegisterBlock {
    pub ctrl: u32,
    pub status: u32,
    pub ctrl_ext: u32,
    pub mdic: u32,
    pub rctl: u32,
    pub tctl: u32,
    pub eims: u32,
    pub eimc: u32,
    pub eicr: u32,
    /// CTRL reads after the last CTRL write before the self-clearing reset
    /// bit reads clear; `None` never clears it.
    pub rst_clear_after: Option<u32>,
    /// CTRL reads since the last CTRL write.
    pub ctrl_reads: u32,
    /// MDIC polls after the last MDIC write before the transaction
    /// completes; `None` never completes it.
    pub mdic_ready_after: Option<u32>,
    /// Completes MDIC transactions with the error bit instead of ready.
    pub mdic_error: bool,
    /// The 16 data bits a completed MDIC transaction carries back.
    pub mdic_response: u16,
    /// MDIC polls since the last MDIC write.
    pub mdic_reads: u32,
}

/// An MDIC word as it reads while the transaction is still in flight:
/// whatever was stored, with the completion bits clear.
pub open spec fn sim_mdic_inflight(m: u32) -> u32 {
    m & !(MDIC_READY_MASK | MDIC_E_MASK)
}

/// An MDIC word as it reads once the transaction completed: on error the
/// error bit alone is set; otherwise the ready bit is set and the data field
/// carries the response.
pub open spec fn sim_mdic_done(m: u32, err: bool, resp: u16) -> u32 {
    if err {
        sim_mdic_inflight(m) | MDIC_E_MASK
    } else {
        spec_set_field(sim_mdic_inflight(m), MDIC_DATA_LSB, MDIC_DATA_WIDTH, resp as u32)
            | MDIC_READY_MASK
    }
}

/// A counter of polls, kept from overflowing.
pub open spec fn sat_add(c: u32, n: nat) -> u32 {
    if c + n <= u32::MAX {
        (c + n) as u32
    } else {
        u32::MAX
    }
}

impl RegisterBlock for SimRegisterBlock {
    open spec fn read_value(&self, off: u64) -> u32 {
        if off == CTRL_REG {
            match self.rst_clear_after {
                Some(t) => if self.ctrl_reads >= t {
                    self.ctrl & !CTRL_RST_MASK
                } else {
                    self.ctrl
                },
                None => self.ctrl,
            }
        } else if off == STATUS_REG {
            self.status
        } else if off == CTRL_EXT_REG {
            self.ctrl_ext
        } else if off == MDIC_REG {
            match self.mdic_ready_after {
                Some(t) => if self.mdic_reads >= t {
                    sim_mdic_done(self.mdic, self.mdic_error, self.mdic_response)
                } else {
                    sim_mdic_inflight(self.mdic)
                },
                None => sim_mdic_inflight(self.mdic),
            }
        } else if off == RCTL_REG {
            self.rctl
        } else if off == TCTL_REG {
            self.tctl
        } else if off == EIMS_REG {
            self.eims
        } else if off == EIMC_REG {
            self.eimc
        } else if off == EICR_REG {
            self.eicr
        } else {
            0
        }
    }

    open spec fn after_read(&self, off: u64) -> Self {
        if off == CTRL_REG {
            SimRegisterBlock { ctrl_reads: sat_add(self.ctrl_reads, 1), ..*self }
        } else if off == MDIC_REG {
            SimRegisterBlock { mdic_reads: sat_add(self.mdic_reads, 1), ..*self }
        } else if off == EICR_REG {
            // Reading the cause register acknowledges and clears it.
            SimRegisterBlock { eicr: 0, ..*self }
        } else {
            *self
        }
    }

    open spec fn after_write(&self, off: u64, v: u32) -> Self {
        if off == CTRL_REG {
            SimRegisterBlock { ctrl: v, ctrl_reads: 0, ..*self }
        } else if off == STATUS_REG {
            // Read-only: writes are dropped.
            *self
        } else if off == CTRL_EXT_REG {
            SimRegisterBlock { ctrl_ext: v, ..*self }
        } else if off == MDIC_REG {
            SimRegisterBlock { mdic: v, mdic_reads: 0, ..*self }
        } else if off == RCTL_REG {
            SimRegisterBlock { rctl: v, ..*self }
        } else if off == TCTL_REG {
            SimRegisterBlock { tctl: v, ..*self }
        } else if off == EIMS_REG {
            SimRegisterBlock { eims: v, ..*self }
        } else if off == EIMC_REG {
            SimRegisterBlock { eimc: v, ..*self }
        } else if off == EICR_REG {
            SimRegisterBlock { eicr: v, ..*self }
        } else {
            *self
        }
    }

    fn read_reg(&mut self, off: u64) -> (r: u32) {
        let r = if off == CTRL_REG {
            match self.rst_clear_after {
                Some(t) => if self.ctrl_reads >= t {
                    self.ctrl & !CTRL_RST_MASK
                } else {
                    self.ctrl
                },
                None => self.ctrl,
            }
        } else if off == STATUS_REG {
            self.status
        } else if off == CTRL_EXT_REG {
            self.ctrl_ext
        } else if off == MDIC_REG {
            let inflight = self.mdic & !(MDIC_READY_MASK | MDIC_E_MASK);
            let done = match self.mdic_ready_after {
                Some(t) => self.mdic_reads >= t,
                None => false,
            };
            if done {
                if self.mdic_error {
                    inflight | MDIC_E_MASK
                } else {
                    set_field(inflight, MDIC_DATA_LSB, MDIC_DATA_WIDTH, self.mdic_response as u32)
                        | MDIC_READY_MASK
                }
            } else {
                inflight
            }
        } else if off == RCTL_REG {
            self.rctl
        } else if off == TCTL_REG {
            self.tctl
        } else if off == EIMS_REG {
            self.eims
        } else if off == EIMC_REG {
            self.eimc
        } else if off == EICR_REG {
            self.eicr
        } else {
            0
        };
        if off == CTRL_REG {
            if self.ctrl_reads < u32::MAX {
                self.ctrl_reads = self.ctrl_reads + 1;
            }
        } else if off == MDIC_REG {
            if self.mdic_reads < u32::MAX {
                self.mdic_reads = self.mdic_reads + 1;
            }
        } else if off == EICR_REG {
            self.eicr = 0;
        }
        r
    }

    fn write_reg(&mut self, off: u64, v: u32) {
        if off == CTRL_REG {
            self.ctrl = v;
            self.ctrl_reads = 0;
        } else if off == STATUS_REG {
            // Read-only: the write is dropped.
        } else if off == CTRL_EXT_REG {
            self.ctrl_ext = v;
        } else if off == MDIC_REG {
            self.mdic = v;
            self.mdic_reads = 0;
        } else if off == RCTL_REG {
            self.rctl = v;
        } else if off == TCTL_REG {
            self.tctl = v;
        } else if off == EIMS_REG {
            self.eims = v;
        } else if off == EIMC_REG {
            self.eimc = v;
        } else if off == EICR_REG {
            self.eicr = v;
        }
    }
}

impl Default for SimRegisterBlock {
    /// A healthy idle device: every register reads zero, a reset command
    /// completes at the first poll, and an MDIC transaction completes ready
    /// at the first poll with an all-zero response.
    fn default() -> (r: Self)
        ensures
            r == (SimRegisterBlock {
                ctrl: 0,
                status: 0,
                ctrl_ext: 0,
                mdic: 0,
                rctl: 0,
                tctl: 0,
                eims: 0,
                eimc: 0,
                eicr: 0,
                rst_clear_after: Some(0u32),
                ctrl_reads: 0,
                mdic_ready_after: Some(0u32),
                mdic_error: false,
                mdic_response: 0,
                mdic_reads: 0,
            }),
    {
        SimRegisterBlock {
            ctrl: 0,
            status: 0,
            ctrl_ext: 0,
            mdic: 0,
            rctl: 0,
            tctl: 0,
            eims: 0,
            eimc: 0,
            eicr: 0,
            rst_clear_after: Some(0),
            ctrl_reads: 0,
            mdic_ready_after: Some(0),
            mdic_error: false,
            mdic_response: 0,
            mdic_reads: 0,
        }
    }
}

/// A PHY driver model: it records the operations asked of it in order,
/// completes each with a configurable result and records that too, touching
/// no hardware. Its audit trails are what the bring-up sequence's ordering
/// and error-propagation guarantees can be checked against on chosen runs.
pub struct SimPhy {
    pub log: Vec<PhyCall>,
    pub results: Vec<Result<(), DError>>,
    pub fail_power_up: Option<DError>,
    pub fail_enable_auto_negotiation: Option<DError>,
    pub fail_wait_auto_negotiation: Option<DError>,
}

impl SimPhy {
    /// A PHY model whose operations all succeed, with empty audit trails.
    pub fn new() -> (r: Self)
        ensures
            r.log@ == Seq::<PhyCall>::empty(),
            r.results@ == Seq::<Result<(), DError>>::empty(),
            r.fail_power_up is None,
            r.fail_enable_auto_negotiation is None,
            r.fail_wait_auto_negotiation is None,
    {
        SimPhy {
            log: Vec::new(),
            results: Vec::new(),
            fail_power_up: None,
            fail_enable_auto_negotiation: None,
            fail_wait_auto_negotiation: None,
        }
    }
}

impl<B: RegisterBlock> PhyDriver<B> for SimPhy {
    open spec fn calls(&self) -> Seq<PhyCall> {
        self.log@
    }

    open spec fn outcomes(&self) -> Seq<Result<(), DError>> {
        self.results@
    }

    fn power_up(&mut self, _mac: &mut Mac<B>) -> (r: Result<(), DError>) {
        self.log.push(PhyCall::PowerUp);
        let r = match self.fail_power_up {
            Some(e) => Err(e),
            None => Ok(()),
        };
        self.results.push(r);
        r
    }

    fn enable_auto_negotiation(&mut self, _mac: &mut Mac<B>) -> (r: Result<(), DError>) {
        self.log.push(PhyCall::EnableAutoNegotiation);
        let r = match self.fail_enable_auto_negotiation {
            Some(e) => Err(e),
            None => Ok(()),
        };
        self.results.push(r);
        r
    }

    fn wait_for_auto_negotiation_complete(&mut self, _mac: &mut Mac<B>) -> (r: Result<(), DError>) {
        self.log.push(PhyCall::WaitAutoNegotiationComplete);
        let r = match self.fail_wait_auto_negotiation {
            Some(e) => Err(e),
            None => Ok(()),
        };
        self.results.push(r);
        r
    }
}

/// A kernel model: it records the duration of every sleep asked of it, so a
/// wait's sleep discipline — one yield after every failed poll, at the
/// stated interval — can be checked on chosen runs.
pub struct SimKernel {
    pub log: Vec<u64>,
}

impl SimKernel {
    /// A kernel model with an empty audit trail.
    pub fn new() -> (r: Self)
        ensures
            r.log@ == Seq::<u64>::empty(),
    {
        SimKernel { log: Vec::new() }
    }
}

impl Kernel for SimKernel {
    open spec fn sleeps(&self) -> Seq<u64> {
        self.log@
    }

    fn sleep(&mut self, millis: u64) {
        self.log.push(millis);
    }
}

/// Consecutive CTRL polls of the model only advance the CTRL poll counter.
pub proof fn lemma_sim_ctrl_polls(s: SimRegisterBlock, n: nat)
    ensures
        nth_state(s, CTRL_REG, n) == (SimRegisterBlock {
            ctrl_reads: sat_add(s.ctrl_reads, n),
            ..s
        }),
    decreases n,
{
    if n > 0 {
        lemma_sim_ctrl_polls(s, (n - 1) as nat);
    }
}

/// Consecutive MDIC polls of the model only advance the MDIC poll counter.
pub proof fn lemma_sim_mdic_polls(s: SimRegisterBlock, n: nat)
    ensures
        nth_state(s, MDIC_REG, n) == (SimRegisterBlock {
            mdic_reads: sat_add(s.mdic_reads, n),
            ..s
        }),
    decreases n,
{
    if n > 0 {
        lemma_sim_mdic_polls(s, (n - 1) as nat);
    }
}

/// Reading STATUS does not change the model at all: the decode of STATUS is
/// a pure read.
pub proof fn lemma_sim_status_read_pure(s: SimRegisterBlock)
    ensures
        s.after_read(STATUS_REG) == s,
{
}

/// Law: once the reset command is issued, a register model that self-clears
/// the reset bit after `t` polls first reads it clear exactly at poll `t`,
/// so a `t` under the budget of 1000 makes `reset` succeed at that poll and
/// not before; a model that never self-clears keeps the bit set through all
/// 1000 budgeted polls, so `reset` fails with `Timeout` after exactly 1000
/// attempts.
pub proof fn lemma_sim_reset_outcome(s: SimRegisterBlock)
    ensures
        s.rst_clear_after matches Some(t) ==> nth_read(reset_issued(s), CTRL_REG, t as nat)
            & CTRL_RST_MASK == 0,
        s.rst_clear_after matches Some(t) ==> forall|j: nat|
            j < t ==> nth_read(reset_issued(s), CTRL_REG, j) & CTRL_RST_MASK != 0,
        s.rst_clear_after is None ==> forall|k: nat|
            nth_read(reset_issued(s), CTRL_REG, k) & CTRL_RST_MASK != 0,
{
    let v = s.read_value(CTRL_REG) | CTRL_RST_MASK | CTRL_PHY_RST_MASK;
    let b1 = reset_issued(s);
    assert(b1 == (SimRegisterBlock { ctrl: v, ctrl_reads: 0, ..s }));
    assert(v & CTRL_RST_MASK != 0) by {
        let x = s.read_value(CTRL_REG);
        assert((x | (1u32 << 26u32) | (1u32 << 31u32)) & (1u32 << 26u32) != 0) by (bit_vector);
    };
    assert((v & !CTRL_RST_MASK) & CTRL_RST_MASK == 0) by {
        assert((v & !(1u32 << 26u32)) & (1u32 << 26u32) == 0) by (bit_vector);
    };
    assert forall|k: nat| #![auto] nth_state(b1, CTRL_REG, k) == (SimRegisterBlock {
        ctrl_reads: sat_add(0, k),
        ..b1
    }) by {
        lemma_sim_ctrl_polls(b1, k);
    };
    if let Some(t) = s.rst_clear_after {
        assert(sat_add(0, t as nat) == t);
        assert forall|j: nat| j < t implies nth_read(b1, CTRL_REG, j) & CTRL_RST_MASK != 0 by {
            assert(sat_add(0, j) == j);
        };
    }
}

/// Law: once an MDIC command is stored, a register model that completes the
/// transaction after `t` polls reads as still in flight at every poll before
/// `t`; at poll `t` it reads ready with the configured response in the data
/// field, or as a completed error when the model injects one — so the MDIO
/// operations return at poll `t` and not before, success and data exactly
/// when no error was injected. A model that never completes keeps every poll
/// in flight.
pub proof fn lemma_sim_mdic_outcome(s: SimRegisterBlock, cmd: u32)
    ensures
        s.mdic_ready_after matches Some(t) ==> {
            &&& !s.mdic_error ==> mdic_done_ready_at(s.after_write(MDIC_REG, cmd), t as nat)
                && spec_get_field(
                nth_read(s.after_write(MDIC_REG, cmd), MDIC_REG, t as nat),
                MDIC_DATA_LSB,
                MDIC_DATA_WIDTH,
            ) == s.mdic_response as u32
            &&& s.mdic_error ==> mdic_done_error_at(s.after_write(MDIC_REG, cmd), t as nat)
        },
        s.mdic_ready_after is None ==> forall|k: nat|
            mdic_pending(nth_read(s.after_write(MDIC_REG, cmd), MDIC_REG, k)),
{
    let b1 = s.after_write(MDIC_REG, cmd);
    assert(b1 == (SimRegisterBlock { mdic: cmd, mdic_reads: 0, ..s }));
    assert forall|k: nat| #![auto] nth_state(b1, MDIC_REG, k) == (SimRegisterBlock {
        mdic_reads: sat_add(0, k),
        ..b1
    }) by {
        lemma_sim_mdic_polls(b1, k);
    };
    assert(sim_mdic_inflight(cmd) & MDIC_READY_MASK == 0 && sim_mdic_inflight(cmd) & MDIC_E_MASK
        == 0) by {
        assert((cmd & !((1u32 << 28u32) | (1u32 << 30u32))) & (1u32 << 28u32) == 0 && (cmd & !((1u32
            << 28u32) | (1u32 << 30u32))) & (1u32 << 30u32) == 0) by (bit_vector);
    };
    let fl = sim_mdic_inflight(cmd);
    assert((fl | MDIC_E_MASK) & MDIC_READY_MASK == 0 && (fl | MDIC_E_MASK) & MDIC_E_MASK != 0) by {
        assert(fl & (1u32 << 28u32) == 0 ==> ((fl | (1u32 << 30u32)) & (1u32 << 28u32) == 0 && (fl
            | (1u32 << 30u32)) & (1u32 << 30u32) != 0)) by (bit_vector);
    };
    let resp = s.mdic_response as u32;
    let done = spec_set_field(fl, MDIC_DATA_LSB, MDIC_DATA_WIDTH, resp) | MDIC_READY_MASK;
    assert(done & MDIC_READY_MASK != 0 && spec_get_field(done, MDIC_DATA_LSB, MDIC_DATA_WIDTH)
        == resp) by {
        assert(((fl & !(!(0xFFFF_FFFFu32 << 16u32) << 0u32)) | ((resp & !(0xFFFF_FFFFu32 << 16u32))
            << 0u32) | (1u32 << 28u32)) & (1u32 << 28u32) != 0) by (bit_vector);
        assert(resp < 0x10000 ==> ((((fl & !(!(0xFFFF_FFFFu32 << 16u32) << 0u32)) | ((resp & !(
        0xFFFF_FFFFu32 << 16u32)) << 0u32) | (1u32 << 28u32)) >> 0u32) & !(0xFFFF_FFFFu32
            << 16u32)) == resp) by (bit_vector);
        assert(resp < 0x10000);
    };
    if let Some(t) = s.mdic_ready_after {
        assert(sat_add(0, t as nat) == t);
        assert forall|j: nat| j < t implies mdic_pending(nth_read(b1, MDIC_REG, j)) by {
            assert(sat_add(0, j) == j);
        };
    }
}

} // verus!
