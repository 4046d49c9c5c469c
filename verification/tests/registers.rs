use pcie::mac::{mdic_command, LinkMode, Mac, Speed};
use pcie::regs::{
    get_field, set_field, CTRL_EXT_LINK_MODE_LSB, CTRL_EXT_LINK_MODE_WIDTH, CTRL_EXT_REG,
    CTRL_FD_MASK, CTRL_REG, CTRL_SLU_MASK, CTRL_SPEED_LSB, CTRL_SPEED_WIDTH, MDIC_OP_READ,
    MDIC_OP_WRITE, RCTL_BSIZE_1024, RCTL_BSIZE_256, RCTL_BSIZE_2048, RCTL_BSIZE_512,
    RCTL_BSIZE_LSB, RCTL_BSIZE_WIDTH, RCTL_REG, SPEED_ENC_10, SPEED_ENC_100, SPEED_ENC_1000,
    STATUS_FD_MASK, STATUS_LU_MASK, STATUS_PHYRA_MASK, STATUS_SPEED_LSB, TCTL_COLD_LSB,
    TCTL_COLD_WIDTH, TCTL_CT_LSB, TCTL_CT_WIDTH, TCTL_REG,
};
use pcie::sim::SimRegisterBlock;

fn sim() -> SimRegisterBlock {
    SimRegisterBlock::default()
}

#[test]
fn field_set_then_get_returns_value() {
    // Every writable enumerated value of a field comes back unchanged.
    for v in [RCTL_BSIZE_2048, RCTL_BSIZE_1024, RCTL_BSIZE_512, RCTL_BSIZE_256] {
        let w = set_field(0, RCTL_BSIZE_LSB, RCTL_BSIZE_WIDTH, v);
        assert_eq!(get_field(w, RCTL_BSIZE_LSB, RCTL_BSIZE_WIDTH), v);
    }
    for v in [SPEED_ENC_10, SPEED_ENC_100, SPEED_ENC_1000] {
        let w = set_field(0xFFFF_FFFF, CTRL_SPEED_LSB, CTRL_SPEED_WIDTH, v);
        assert_eq!(get_field(w, CTRL_SPEED_LSB, CTRL_SPEED_WIDTH), v);
    }
}

#[test]
fn field_write_preserves_other_bits() {
    let w = set_field(0xFFFF_FFFF, CTRL_SPEED_LSB, CTRL_SPEED_WIDTH, SPEED_ENC_100);
    assert_eq!(w, (0xFFFF_FFFFu32 & !(0b11 << 8)) | (0b01 << 8));
    let w = set_field(0, TCTL_CT_LSB, TCTL_CT_WIDTH, 0xFF);
    assert_eq!(w, 0xFF0);
    // The written value is truncated to the field's width.
    let w = set_field(0, TCTL_COLD_LSB, TCTL_COLD_WIDTH, 0xFFFF);
    assert_eq!(w, 0x3FF << 12);
}

#[test]
fn mdic_command_assembles_exact_word() {
    assert_eq!(
        mdic_command(MDIC_OP_WRITE, 2, 3, 0xABCD),
        0xABCD | (3 << 16) | (2 << 21) | (1 << 26)
    );
    assert_eq!(mdic_command(MDIC_OP_READ, 1, 0x1F, 0), (0x1F << 16) | (1 << 21) | (2 << 26));
    // Addresses wider than their 5-bit fields are truncated, not rejected.
    assert_eq!(
        mdic_command(MDIC_OP_READ, 0x20, 0x21, 0),
        (1 << 16) | (2 << 26)
    );
}

#[test]
fn status_decodes_every_speed_encoding() {
    // 0b10 -> 1000 Mb; 0b01 -> 100 Mb; 0b00 and the unspecified 0b11 -> 10 Mb.
    let cases = [
        (SPEED_ENC_1000, Speed::Mb1000),
        (SPEED_ENC_100, Speed::Mb100),
        (SPEED_ENC_10, Speed::Mb10),
        (0b11, Speed::Mb10),
    ];
    for (enc, expected) in cases {
        let mut s = sim();
        s.status = enc << STATUS_SPEED_LSB;
        let mut mac = Mac::new(s);
        assert_eq!(mac.status().speed, expected);
    }
}

#[test]
fn status_decodes_flag_bits() {
    let mut s = sim();
    s.status = STATUS_FD_MASK | STATUS_LU_MASK | STATUS_PHYRA_MASK;
    let mut mac = Mac::new(s);
    let st = mac.status();
    assert!(st.full_duplex);
    assert!(st.link_up);
    assert!(st.phy_reset_asserted);
    assert_eq!(st.speed, Speed::Mb10);

    let mut mac = Mac::new(sim());
    let st = mac.status();
    assert!(!st.full_duplex);
    assert!(!st.link_up);
    assert!(!st.phy_reset_asserted);
}

#[test]
fn status_twice_is_identical() {
    let mut s = sim();
    s.status = STATUS_LU_MASK | (SPEED_ENC_1000 << STATUS_SPEED_LSB);
    let mut mac = Mac::new(s);
    let a = mac.status();
    let b = mac.status();
    assert_eq!(a.full_duplex, b.full_duplex);
    assert_eq!(a.link_up, b.link_up);
    assert_eq!(a.speed, b.speed);
    assert_eq!(a.phy_reset_asserted, b.phy_reset_asserted);
    // The pure read also left the register model untouched.
    assert_eq!(*mac.reg(), {
        let mut expected = sim();
        expected.status = STATUS_LU_MASK | (SPEED_ENC_1000 << STATUS_SPEED_LSB);
        expected
    });
}

#[test]
fn link_mode_decodes_known_encodings() {
    let cases = [
        (0b00u32, Some(LinkMode::DirectCooper)),
        (0b10, Some(LinkMode::Sgmii)),
        (0b11, Some(LinkMode::InternalSerdes)),
        (0b01, None),
    ];
    for (enc, expected) in cases {
        let mut s = sim();
        s.ctrl_ext = enc << CTRL_EXT_LINK_MODE_LSB;
        let mut mac = Mac::new(s);
        assert_eq!(mac.link_mode(), expected);
    }
}

#[test]
fn field_roundtrip_through_registers() {
    // Write a legal enumerated value through the register model, which
    // echoes writes, and read the same symbolic value back.
    let mut s = sim();
    s.rst_clear_after = None;
    let mut mac = Mac::new(s);
    mac.modify_field(CTRL_EXT_REG, CTRL_EXT_LINK_MODE_LSB, CTRL_EXT_LINK_MODE_WIDTH, 0b10);
    assert_eq!(mac.link_mode(), Some(LinkMode::Sgmii));
    mac.modify_field(RCTL_REG, RCTL_BSIZE_LSB, RCTL_BSIZE_WIDTH, RCTL_BSIZE_512);
    assert_eq!(mac.read_field(RCTL_REG, RCTL_BSIZE_LSB, RCTL_BSIZE_WIDTH), RCTL_BSIZE_512);
    mac.modify_field(CTRL_REG, CTRL_SPEED_LSB, CTRL_SPEED_WIDTH, SPEED_ENC_100);
    assert_eq!(mac.read_field(CTRL_REG, CTRL_SPEED_LSB, CTRL_SPEED_WIDTH), SPEED_ENC_100);
    mac.modify_field(TCTL_REG, TCTL_CT_LSB, TCTL_CT_WIDTH, 0x0F);
    assert_eq!(mac.read_field(TCTL_REG, TCTL_CT_LSB, TCTL_CT_WIDTH), 0x0F);
    // Modifying one field left the others in the word alone.
    assert_eq!(mac.reg().ctrl, 0b01 << 8);
    assert_eq!(mac.reg().rctl, 0b10 << 16);
}

#[test]
fn set_link_up_sets_slu_and_fd() {
    let mut s = sim();
    s.rst_clear_after = None;
    s.ctrl = 0x1000;
    let mut mac = Mac::new(s);
    mac.set_link_up();
    assert_eq!(mac.reg().ctrl, 0x1000 | CTRL_SLU_MASK | CTRL_FD_MASK);
}
