use vstd::prelude::*;

verus! {

// ---------------------------------------------------------------------------
// Register byte offsets.
//
// The layout of the memory-mapped register block (byte offsets from the
// mapped base) is a bit-exact hardware contract: none of these values is
// tunable. The block spans offsets 0x0..0xF000.
// ---------------------------------------------------------------------------

/// Device control.
pub const CTRL_REG: u64 = 0x0;
/// Device status (read-only).
pub const STATUS_REG: u64 = 0x8;
/// Extended device control.
pub const CTRL_EXT_REG: u64 = 0x18;
/// MDI control: the command/status port of the MDIO bus to the PHY.
pub const MDIC_REG: u64 = 0x20;
/// Legacy interrupt cause (read-only, clears on read).
pub const ICR_REG: u64 = 0xC0;
/// Legacy interrupt mask set/read.
pub const IMS_REG: u64 = 0xD0;
/// Legacy interrupt mask clear.
pub const IMC_REG: u64 = 0xD8;
/// Receive control.
pub const RCTL_REG: u64 = 0x100;
/// Transmit control.
pub const TCTL_REG: u64 = 0x400;
/// General purpose interrupt enable.
pub const GPIE_REG: u64 = 0x1514;
/// Extended interrupt mask set/read.
pub const EIMS_REG: u64 = 0x1524;
/// Extended interrupt mask clear.
pub const EIMC_REG: u64 = 0x1528;
/// Extended interrupt auto clear.
pub const EIAC_REG: u64 = 0x152C;
/// Extended interrupt auto mask.
pub const EIAM_REG: u64 = 0x1530;
/// Extended interrupt cause (clears on read).
pub const EICR_REG: u64 = 0x1580;
/// Receive address array (RAL/RAH pairs) for entries 0..=15.
pub const RAL0_REG: u64 = 0x5400;
/// Receive address array (RAL/RAH pairs) for entries 16..=23.
pub const RAL16_REG: u64 = 0x54E0;
/// Software semaphore (software/firmware arbitration).
pub const SWSM_REG: u64 = 0x5B50;
/// Firmware semaphore.
pub const FWSM_REG: u64 = 0x5B54;
/// Software/firmware synchronization.
pub const SW_FW_SYNC_REG: u64 = 0x5B5C;
/// One past the last byte of the register block.
pub const REG_BLOCK_END: u64 = 0xF000;

/// A word-aligned byte offset inside the register block: the only offsets a
/// register access may use.
pub open spec fn valid_reg_offset(off: u64) -> bool {
    off % 4 == 0 && off < REG_BLOCK_END
}

// ---------------------------------------------------------------------------
// Bitfield schema.
//
// A field of a 32-bit register is a contiguous bit range, given as the index
// of its least significant bit and its width. Fields of one register never
// overlap. Enumerated legal values are given alongside, as plain constants.
// ---------------------------------------------------------------------------

// CTRL fields.
pub const CTRL_FD_LSB: u32 = 0;
pub const CTRL_FD_WIDTH: u32 = 1;
pub const CTRL_SLU_LSB: u32 = 6;
pub const CTRL_SLU_WIDTH: u32 = 1;
pub const CTRL_SPEED_LSB: u32 = 8;
pub const CTRL_SPEED_WIDTH: u32 = 2;
pub const CTRL_FRCSPD_LSB: u32 = 11;
pub const CTRL_FRCSPD_WIDTH: u32 = 1;
pub const CTRL_FRCDPLX_LSB: u32 = 12;
pub const CTRL_FRCDPLX_WIDTH: u32 = 1;
pub const CTRL_RST_LSB: u32 = 26;
pub const CTRL_RST_WIDTH: u32 = 1;
pub const CTRL_PHY_RST_LSB: u32 = 31;
pub const CTRL_PHY_RST_WIDTH: u32 = 1;

/// CTRL.FD: half duplex.
pub const DUPLEX_HALF: u32 = 0;
/// CTRL.FD: full duplex.
pub const DUPLEX_FULL: u32 = 1;
/// CTRL/STATUS.SPEED encoding for 10 Mb/s.
pub const SPEED_ENC_10: u32 = 0b00;
/// CTRL/STATUS.SPEED encoding for 100 Mb/s.
pub const SPEED_ENC_100: u32 = 0b01;
/// CTRL/STATUS.SPEED encoding for 1000 Mb/s.
pub const SPEED_ENC_1000: u32 = 0b10;
/// CTRL.RST: normal operation (the device self-clears the reset bit here).
pub const RST_NORMAL: u32 = 0;
/// CTRL.RST: reset in progress.
pub const RST_RESET: u32 = 1;

// STATUS fields.
pub const STATUS_FD_LSB: u32 = 0;
pub const STATUS_FD_WIDTH: u32 = 1;
pub const STATUS_LU_LSB: u32 = 1;
pub const STATUS_LU_WIDTH: u32 = 1;
pub const STATUS_SPEED_LSB: u32 = 6;
pub const STATUS_SPEED_WIDTH: u32 = 2;
pub const STATUS_PHYRA_LSB: u32 = 10;
pub const STATUS_PHYRA_WIDTH: u32 = 1;

// CTRL_EXT fields.
pub const CTRL_EXT_LINK_MODE_LSB: u32 = 22;
pub const CTRL_EXT_LINK_MODE_WIDTH: u32 = 2;

/// CTRL_EXT.LINK_MODE: direct copper interface.
pub const LINK_MODE_DIRECT_COPPER: u32 = 0b00;
/// CTRL_EXT.LINK_MODE: SGMII.
pub const LINK_MODE_SGMII: u32 = 0b10;
/// CTRL_EXT.LINK_MODE: internal SerDes.
pub const LINK_MODE_INTERNAL_SERDES: u32 = 0b11;

// MDIC fields.
pub const MDIC_DATA_LSB: u32 = 0;
pub const MDIC_DATA_WIDTH: u32 = 16;
pub const MDIC_REGADDR_LSB: u32 = 16;
pub const MDIC_REGADDR_WIDTH: u32 = 5;
pub const MDIC_PHY_ADDR_LSB: u32 = 21;
pub const MDIC_PHY_ADDR_WIDTH: u32 = 5;
pub const MDIC_OP_LSB: u32 = 26;
pub const MDIC_OP_WIDTH: u32 = 2;
pub const MDIC_READY_LSB: u32 = 28;
pub const MDIC_READY_WIDTH: u32 = 1;
pub const MDIC_I_LSB: u32 = 29;
pub const MDIC_I_WIDTH: u32 = 1;
pub const MDIC_E_LSB: u32 = 30;
pub const MDIC_E_WIDTH: u32 = 1;
pub const MDIC_DEST_LSB: u32 = 31;
pub const MDIC_DEST_WIDTH: u32 = 1;

/// MDIC.OP: write transaction.
pub const MDIC_OP_WRITE: u32 = 0b01;
/// MDIC.OP: read transaction.
pub const MDIC_OP_READ: u32 = 0b10;

// SWSM fields.
pub const SWSM_SMBI_LSB: u32 = 0;
pub const SWSM_SMBI_WIDTH: u32 = 1;
pub const SWSM_SWESMBI_LSB: u32 = 1;
pub const SWSM_SWESMBI_WIDTH: u32 = 1;
pub const SWSM_WMNG_LSB: u32 = 2;
pub const SWSM_WMNG_WIDTH: u32 = 1;
pub const SWSM_EEUR_LSB: u32 = 3;
pub const SWSM_EEUR_WIDTH: u32 = 1;

// SW_FW_SYNC fields: software semaphores in the low half, firmware
// semaphores at the same positions of the high half.
pub const SW_FW_SYNC_SW_EEP_LSB: u32 = 0;
pub const SW_FW_SYNC_SW_PHY0_LSB: u32 = 1;
pub const SW_FW_SYNC_SW_PHY1_LSB: u32 = 2;
pub const SW_FW_SYNC_SW_MAC_CSR_LSB: u32 = 3;
pub const SW_FW_SYNC_SW_FLASH_LSB: u32 = 4;
pub const SW_FW_SYNC_FW_EEP_LSB: u32 = 16;
pub const SW_FW_SYNC_FW_PHY0_LSB: u32 = 17;
pub const SW_FW_SYNC_FW_PHY1_LSB: u32 = 18;
pub const SW_FW_SYNC_FW_MAC_CSR_LSB: u32 = 19;
pub const SW_FW_SYNC_FW_FLASH_LSB: u32 = 20;
pub const SW_FW_SYNC_SEM_WIDTH: u32 = 1;

// RCTL fields.
pub const RCTL_RXEN_LSB: u32 = 1;
pub const RCTL_RXEN_WIDTH: u32 = 1;
pub const RCTL_SBP_LSB: u32 = 2;
pub const RCTL_SBP_WIDTH: u32 = 1;
pub const RCTL_UPE_LSB: u32 = 3;
pub const RCTL_UPE_WIDTH: u32 = 1;
pub const RCTL_MPE_LSB: u32 = 4;
pub const RCTL_MPE_WIDTH: u32 = 1;
pub const RCTL_LPE_LSB: u32 = 5;
pub const RCTL_LPE_WIDTH: u32 = 1;
pub const RCTL_LBM_LSB: u32 = 6;
pub const RCTL_LBM_WIDTH: u32 = 2;
pub const RCTL_MO_LSB: u32 = 12;
pub const RCTL_MO_WIDTH: u32 = 2;
pub const RCTL_BAM_LSB: u32 = 15;
pub const RCTL_BAM_WIDTH: u32 = 1;
pub const RCTL_BSIZE_LSB: u32 = 16;
pub const RCTL_BSIZE_WIDTH: u32 = 2;
pub const RCTL_VFE_LSB: u32 = 18;
pub const RCTL_VFE_WIDTH: u32 = 1;
pub const RCTL_CFIEN_LSB: u32 = 19;
pub const RCTL_CFIEN_WIDTH: u32 = 1;
pub const RCTL_CFI_LSB: u32 = 20;
pub const RCTL_CFI_WIDTH: u32 = 1;
pub const RCTL_PSP_LSB: u32 = 21;
pub const RCTL_PSP_WIDTH: u32 = 1;
pub const RCTL_DPF_LSB: u32 = 22;
pub const RCTL_DPF_WIDTH: u32 = 1;
pub const RCTL_PMCF_LSB: u32 = 23;
pub const RCTL_PMCF_WIDTH: u32 = 1;
pub const RCTL_SECRC_LSB: u32 = 26;
pub const RCTL_SECRC_WIDTH: u32 = 1;

/// RCTL.BSIZE: 2048-byte receive buffers.
pub const RCTL_BSIZE_2048: u32 = 0b00;
/// RCTL.BSIZE: 1024-byte receive buffers.
pub const RCTL_BSIZE_1024: u32 = 0b01;
/// RCTL.BSIZE: 512-byte receive buffers.
pub const RCTL_BSIZE_512: u32 = 0b10;
/// RCTL.BSIZE: 256-byte receive buffers.
pub const RCTL_BSIZE_256: u32 = 0b11;

// TCTL fields.
pub const TCTL_EN_LSB: u32 = 1;
pub const TCTL_EN_WIDTH: u32 = 1;
pub const TCTL_PSP_LSB: u32 = 3;
pub const TCTL_PSP_WIDTH: u32 = 1;
pub const TCTL_CT_LSB: u32 = 4;
pub const TCTL_CT_WIDTH: u32 = 8;
pub const TCTL_COLD_LSB: u32 = 12;
pub const TCTL_COLD_WIDTH: u32 = 10;
pub const TCTL_SWXOFF_LSB: u32 = 22;
pub const TCTL_SWXOFF_WIDTH: u32 = 1;
pub const TCTL_RTLC_LSB: u32 = 24;
pub const TCTL_RTLC_WIDTH: u32 = 1;
pub const TCTL_NRTU_LSB: u32 = 25;
pub const TCTL_NRTU_WIDTH: u32 = 1;
pub const TCTL_MULR_LSB: u32 = 28;
pub const TCTL_MULR_WIDTH: u32 = 1;

// GPIE fields.
pub const GPIE_NSICR_LSB: u32 = 0;
pub const GPIE_NSICR_WIDTH: u32 = 1;
pub const GPIE_MULTIPLE_MSIX_LSB: u32 = 4;
pub const GPIE_MULTIPLE_MSIX_WIDTH: u32 = 1;
pub const GPIE_LL_INTERVAL_LSB: u32 = 7;
pub const GPIE_LL_INTERVAL_WIDTH: u32 = 5;
pub const GPIE_EIAME_LSB: u32 = 30;
pub const GPIE_EIAME_WIDTH: u32 = 1;
pub const GPIE_PBA_SUPPORT_LSB: u32 = 31;
pub const GPIE_PBA_SUPPORT_WIDTH: u32 = 1;

// EICR/EIMS fields outside MSI-X mode; in MSI-X mode bits 24:0 are the
// per-vector causes instead.
pub const EINT_RXTXQ_LSB: u32 = 0;
pub const EINT_RXTXQ_WIDTH: u32 = 16;
pub const EINT_TCP_TIMER_LSB: u32 = 30;
pub const EINT_TCP_TIMER_WIDTH: u32 = 1;
pub const EINT_OTHER_CAUSE_LSB: u32 = 31;
pub const EINT_OTHER_CAUSE_WIDTH: u32 = 1;
pub const EINT_MSIX_LSB: u32 = 0;
pub const EINT_MSIX_WIDTH: u32 = 25;

// Legacy interrupt cause bits, shared by the ICR, IMS and IMC layouts
// (INT_ASSERTED exists in ICR only).
pub const INT_TXDW_LSB: u32 = 0;
pub const INT_TXQE_LSB: u32 = 1;
pub const INT_LSC_LSB: u32 = 2;
pub const INT_RXSEQ_LSB: u32 = 3;
pub const INT_RXDMT0_LSB: u32 = 4;
pub const INT_RXO_LSB: u32 = 6;
pub const INT_RXT0_LSB: u32 = 7;
pub const INT_MDAC_LSB: u32 = 9;
pub const INT_RXCFG_LSB: u32 = 10;
pub const INT_GPI_EN0_LSB: u32 = 11;
pub const INT_GPI_EN1_LSB: u32 = 12;
pub const INT_GPI_EN2_LSB: u32 = 13;
pub const INT_GPI_EN3_LSB: u32 = 14;
pub const INT_TXD_LOW_LSB: u32 = 15;
pub const INT_SRPD_LSB: u32 = 16;
pub const INT_ACK_LSB: u32 = 17;
pub const INT_MNG_LSB: u32 = 18;
pub const INT_DOCK_LSB: u32 = 19;
pub const INT_ASSERTED_LSB: u32 = 31;
pub const INT_CAUSE_WIDTH: u32 = 1;

// ---------------------------------------------------------------------------
// Single-field masks the driver logic tests and sets directly.
// ---------------------------------------------------------------------------

/// CTRL.FD: force full duplex.
pub const CTRL_FD_MASK: u32 = 1u32 << 0;
/// CTRL.SLU: set link up.
pub const CTRL_SLU_MASK: u32 = 1u32 << 6;
/// CTRL.RST: device reset (self-clearing).
pub const CTRL_RST_MASK: u32 = 1u32 << 26;
/// CTRL.PHY_RST: PHY reset.
pub const CTRL_PHY_RST_MASK: u32 = 1u32 << 31;
/// STATUS.FD: link is full duplex.
pub const STATUS_FD_MASK: u32 = 1u32 << 0;
/// STATUS.LU: link is up.
pub const STATUS_LU_MASK: u32 = 1u32 << 1;
/// STATUS.PHYRA: PHY reset is asserted.
pub const STATUS_PHYRA_MASK: u32 = 1u32 << 10;
/// MDIC.READY: the MDIO transaction is complete.
pub const MDIC_READY_MASK: u32 = 1u32 << 28;
/// MDIC.E: the MDIO transaction ended in error.
pub const MDIC_E_MASK: u32 = 1u32 << 30;

// ---------------------------------------------------------------------------
// Field access.
//
// Reading a field yields the raw bits of its range; writing a field only
// ever affects its declared bit range and preserves every other bit of the
// register word (the value written is truncated to the field's width).
// ---------------------------------------------------------------------------

/// A field description is well formed when its bit range lies inside a
/// 32-bit word. Whole-word access is a plain register read or write, so a
/// field is always narrower than the word.
pub open spec fn valid_field(lsb: u32, width: u32) -> bool {
    1 <= width && width <= 31 && lsb + width <= 32
}

/// The mask of the `width` lowest bits of a word.
pub open spec fn spec_low_mask(width: u32) -> u32 {
    !(0xFFFF_FFFFu32 << width)
}

/// The mask of the bit range of a field.
pub open spec fn spec_field_mask(lsb: u32, width: u32) -> u32 {
    spec_low_mask(width) << lsb
}

/// The raw bits of the field at `lsb`/`width` in the word `w`.
pub open spec fn spec_get_field(w: u32, lsb: u32, width: u32) -> u32 {
    (w >> lsb) & spec_low_mask(width)
}

/// The word `w` with the field at `lsb`/`width` replaced by the `width`
/// lowest bits of `v`; all other bits of `w` are kept.
pub open spec fn spec_set_field(w: u32, lsb: u32, width: u32, v: u32) -> u32 {
    (w & !spec_field_mask(lsb, width)) | ((v & spec_low_mask(width)) << lsb)
}

/// Reads the raw bits of a field out of a register word.
pub fn get_field(w: u32, lsb: u32, width: u32) -> (r: u32)
    requires
        valid_field(lsb, width),
    ensures
        r == spec_get_field(w, lsb, width),
{
    (w >> lsb) & !(0xFFFF_FFFFu32 << width)
}

/// Replaces a field of a register word, preserving all bits outside it.
pub fn set_field(w: u32, lsb: u32, width: u32, v: u32) -> (r: u32)
    requires
        valid_field(lsb, width),
    ensures
        r == spec_set_field(w, lsb, width, v),
{
    let low: u32 = !(0xFFFF_FFFFu32 << width);
    (w & !(low << lsb)) | ((v & low) << lsb)
}

/// Law: a field write followed by a field read of the same range yields the
/// written value (truncated to the field's width, so a legal value of the
/// field comes back unchanged), and a field write preserves every bit
/// outside the field's declared range.
pub proof fn lemma_field_roundtrip(w: u32, lsb: u32, width: u32, v: u32)
    requires
        valid_field(lsb, width),
    ensures
        spec_get_field(spec_set_field(w, lsb, width, v), lsb, width) == v & spec_low_mask(width),
        v < (1u32 << width) ==> spec_get_field(spec_set_field(w, lsb, width, v), lsb, width) == v,
        spec_set_field(w, lsb, width, v) & !spec_field_mask(lsb, width) == w & !spec_field_mask(
            lsb,
            width,
        ),
{
    assert((((w & !(!(0xFFFF_FFFFu32 << width) << lsb)) | ((v & !(0xFFFF_FFFFu32 << width))
        << lsb)) >> lsb) & !(0xFFFF_FFFFu32 << width) == v & !(0xFFFF_FFFFu32 << width))
        by (bit_vector)
        requires
            1 <= width && width <= 31 && lsb + width <= 32,
    ;
    assert(v < (1u32 << width) ==> v & !(0xFFFF_FFFFu32 << width) == v) by (bit_vector)
        requires
            1 <= width && width <= 31,
    ;
    assert(((w & !(!(0xFFFF_FFFFu32 << width) << lsb)) | ((v & !(0xFFFF_FFFFu32 << width)) << lsb))
        & !(!(0xFFFF_FFFFu32 << width) << lsb) == w & !(!(0xFFFF_FFFFu32 << width) << lsb))
        by (bit_vector)
        requires
            1 <= width && width <= 31 && lsb + width <= 32,
    ;
}

} // verus!
