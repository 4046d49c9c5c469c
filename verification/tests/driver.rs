use pcie::mac::{mdic_command, Mac, MacAddr6};
use pcie::osal::DError;
use pcie::regs::{CTRL_RST_MASK, MDIC_OP_READ, MDIC_OP_WRITE};
use pcie::sim::{SimKernel, SimPhy, SimRegisterBlock};
use pcie::{Igb, PhyCall};

fn kernel() -> SimKernel {
    SimKernel::new()
}

fn sim() -> SimRegisterBlock {
    SimRegisterBlock::default()
}

#[test]
fn check_vid_did_accepts_only_known_devices() {
    type Device = Igb<SimRegisterBlock, SimPhy>;
    assert!(Device::check_vid_did(0x8086, 0x10C9));
    assert!(Device::check_vid_did(0x8086, 0x1533));
    assert!(!Device::check_vid_did(0x8086, 0x100E));
    assert!(!Device::check_vid_did(0x8087, 0x10C9));
    assert!(!Device::check_vid_did(0x1022, 0x1533));
    assert!(!Device::check_vid_did(0, 0));
}

#[test]
fn reset_succeeds_when_bit_clears_immediately() {
    let mut mac = Mac::new(sim());
    let mut k = kernel();
    assert_eq!(mac.reset(&mut k), Ok(()));
    // The first poll already read the bit clear: no sleep was needed.
    assert_eq!(k.log.len(), 0);
    assert_eq!(mac.reg().ctrl_reads, 1);
    // The reset command itself was stored with the reset bits set.
    assert_ne!(mac.reg().ctrl & CTRL_RST_MASK, 0);
}

#[test]
fn reset_succeeds_on_late_self_clear() {
    let mut s = sim();
    s.rst_clear_after = Some(500);
    let mut mac = Mac::new(s);
    let mut k = kernel();
    assert_eq!(mac.reset(&mut k), Ok(()));
    // 500 polls read the bit still set, each followed by a 1 ms sleep; the
    // 501st read it clear.
    assert_eq!(k.log.len(), 500);
    assert!(k.log.iter().all(|&ms| ms == 1));
    assert_eq!(mac.reg().ctrl_reads, 501);
}

#[test]
fn reset_succeeds_at_the_last_budgeted_poll() {
    let mut s = sim();
    s.rst_clear_after = Some(999);
    let mut mac = Mac::new(s);
    let mut k = kernel();
    assert_eq!(mac.reset(&mut k), Ok(()));
    assert_eq!(mac.reg().ctrl_reads, 1000);
}

#[test]
fn reset_times_out_after_exactly_1000_attempts() {
    let mut s = sim();
    s.rst_clear_after = None;
    let mut mac = Mac::new(s);
    let mut k = kernel();
    assert_eq!(mac.reset(&mut k), Err(DError::Timeout));
    assert_eq!(mac.reg().ctrl_reads, 1000);
    assert_eq!(k.log.len(), 1000);
    assert!(k.log.iter().all(|&ms| ms == 1));

    // One poll past the budget no longer helps: the bound is exact.
    let mut s = sim();
    s.rst_clear_after = Some(1000);
    let mut mac = Mac::new(s);
    let mut k = kernel();
    assert_eq!(mac.reset(&mut k), Err(DError::Timeout));
    assert_eq!(mac.reg().ctrl_reads, 1000);
}

#[test]
fn read_mdic_returns_data_at_the_completing_poll() {
    let mut s = sim();
    s.mdic_ready_after = Some(3);
    s.mdic_response = 0xBEEF;
    let mut mac = Mac::new(s);
    assert_eq!(mac.read_mdic(2, 7), Ok(0xBEEF));
    // Three polls read the transaction still in flight; the fourth
    // completed it — not before.
    assert_eq!(mac.reg().mdic_reads, 4);
    // The command word was stored as assembled.
    assert_eq!(mac.reg().mdic, mdic_command(MDIC_OP_READ, 2, 7, 0));
}

#[test]
fn read_mdic_fails_on_error_completion() {
    let mut s = sim();
    s.mdic_ready_after = Some(2);
    s.mdic_error = true;
    s.mdic_response = 0xBEEF;
    let mut mac = Mac::new(s);
    // The error completion never hands out partial data.
    assert_eq!(mac.read_mdic(1, 1), Err(DError::Unknown("MDIC read error")));
    assert_eq!(mac.reg().mdic_reads, 3);
}

#[test]
fn write_mdic_completes_and_stores_command() {
    let mut s = sim();
    s.mdic_ready_after = Some(1);
    let mut mac = Mac::new(s);
    assert_eq!(mac.write_mdic(5, 9, 0x1234), Ok(()));
    assert_eq!(mac.reg().mdic, mdic_command(MDIC_OP_WRITE, 5, 9, 0x1234));
    assert_eq!(mac.reg().mdic_reads, 2);
}

#[test]
fn write_mdic_fails_on_error_completion() {
    let mut s = sim();
    s.mdic_ready_after = Some(0);
    s.mdic_error = true;
    let mut mac = Mac::new(s);
    assert_eq!(mac.write_mdic(0, 0, 0), Err(DError::Unknown("MDIC read error")));
}

#[test]
fn interrupt_control_writes_masks_and_acknowledges() {
    let mut s = sim();
    s.eicr = 0x1234;
    let mut mac = Mac::new(s);
    mac.disable_interrupts();
    assert_eq!(mac.reg().eimc, u32::MAX);
    // The EICR read-for-side-effect acknowledged the latched causes.
    assert_eq!(mac.reg().eicr, 0);
    mac.enable_interrupts();
    assert_eq!(mac.reg().eims, u32::MAX);

    let mut s = sim();
    s.eicr = 0xFFFF_0000;
    let mut mac = Mac::new(s);
    mac.clear_interrupts();
    assert_eq!(mac.reg().eimc, u32::MAX);
    assert_eq!(mac.reg().eicr, 0);
}

#[test]
fn open_runs_the_whole_bringup_in_order() {
    let mut igb = Igb::new(sim(), SimPhy::new()).unwrap();
    let mut k = kernel();
    assert_eq!(igb.open(&mut k), Ok(()));
    assert_eq!(
        igb.phy.log,
        vec![
            PhyCall::PowerUp,
            PhyCall::EnableAutoNegotiation,
            PhyCall::WaitAutoNegotiationComplete,
        ]
    );
    // Success means every step succeeded.
    assert_eq!(igb.phy.results, vec![Ok(()), Ok(()), Ok(())]);
}

#[test]
fn open_asks_nothing_of_the_phy_when_reset_times_out() {
    let mut s = sim();
    s.rst_clear_after = None;
    let mut igb = Igb::new(s, SimPhy::new()).unwrap();
    let mut k = kernel();
    assert_eq!(igb.open(&mut k), Err(DError::Timeout));
    // No subsequent step was invoked.
    assert!(igb.phy.log.is_empty());
    assert!(igb.phy.results.is_empty());
    // The budget was spent in full before giving up, a 1 ms yield after
    // each poll that read the reset bit still set.
    assert_eq!(igb.mac.reg().ctrl_reads, 1000);
    assert_eq!(k.log.len(), 1000);
    assert!(k.log.iter().all(|&ms| ms == 1));
}

#[test]
fn open_stops_at_the_first_failing_phy_step() {
    let mut phy = SimPhy::new();
    phy.fail_power_up = Some(DError::Unknown("no phy"));
    let mut igb = Igb::new(sim(), phy).unwrap();
    let mut k = kernel();
    // The failing step's error comes back verbatim.
    assert_eq!(igb.open(&mut k), Err(DError::Unknown("no phy")));
    assert_eq!(igb.phy.log, vec![PhyCall::PowerUp]);
    assert_eq!(igb.phy.results, vec![Err(DError::Unknown("no phy"))]);

    let mut phy = SimPhy::new();
    phy.fail_enable_auto_negotiation = Some(DError::Unknown("no link"));
    let mut igb = Igb::new(sim(), phy).unwrap();
    assert_eq!(igb.open(&mut k), Err(DError::Unknown("no link")));
    assert_eq!(igb.phy.log, vec![PhyCall::PowerUp, PhyCall::EnableAutoNegotiation]);
    assert_eq!(igb.phy.results, vec![Ok(()), Err(DError::Unknown("no link"))]);

    let mut phy = SimPhy::new();
    phy.fail_wait_auto_negotiation = Some(DError::Timeout);
    let mut igb = Igb::new(sim(), phy).unwrap();
    assert_eq!(igb.open(&mut k), Err(DError::Timeout));
    assert_eq!(
        igb.phy.log,
        vec![
            PhyCall::PowerUp,
            PhyCall::EnableAutoNegotiation,
            PhyCall::WaitAutoNegotiationComplete,
        ]
    );
    assert_eq!(igb.phy.results, vec![Ok(()), Ok(()), Err(DError::Timeout)]);
}

#[test]
fn igb_status_reflects_live_registers() {
    let mut s = sim();
    s.status = 0x2 | (0b10 << 6);
    let mut igb = Igb::new(s, SimPhy::new()).unwrap();
    let st = igb.status();
    assert!(st.link_up);
    assert!(!st.full_duplex);
}

#[test]
fn mac_addr_roundtrip() {
    let addr = MacAddr6::new([0x52, 0x54, 0x00, 0x12, 0x34, 0x56]);
    assert_eq!(addr.bytes(), [0x52, 0x54, 0x00, 0x12, 0x34, 0x56]);
    let from_array: MacAddr6 = [1, 2, 3, 4, 5, 6].into();
    assert_eq!(from_array, MacAddr6::new([1, 2, 3, 4, 5, 6]));
    let back: [u8; 6] = from_array.into();
    assert_eq!(back, [1, 2, 3, 4, 5, 6]);
}

#[test]
fn mac_addr_hex_notation() {
    let addr = MacAddr6::new([0x52, 0x54, 0x00, 0x12, 0x34, 0xF6]);
    assert_eq!(addr.hex_string(), "52:54:00:12:34:f6");
    assert_eq!(MacAddr6::new([0; 6]).hex_string(), "00:00:00:00:00:00");
}
