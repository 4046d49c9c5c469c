use vstd::prelude::*;
use vstd::string::StringExecFns;

use crate::bus::{clears_at, nth_read, nth_state, poll_budget, wait_for, RegisterBlock};
use crate::osal::{DError, Kernel};
use crate::regs::{
    get_field, set_field, spec_get_field, spec_set_field, valid_field, valid_reg_offset,
    CTRL_EXT_LINK_MODE_LSB, CTRL_EXT_LINK_MODE_WIDTH, CTRL_EXT_REG, CTRL_FD_MASK,
    CTRL_PHY_RST_MASK, CTRL_REG, CTRL_RST_MASK, CTRL_SLU_MASK, EICR_REG, EIMC_REG, EIMS_REG,
    LINK_MODE_DIRECT_COPPER, LINK_MODE_INTERNAL_SERDES, LINK_MODE_SGMII, MDIC_DATA_LSB,
    MDIC_DATA_WIDTH, MDIC_E_MASK, MDIC_OP_LSB, MDIC_OP_READ, MDIC_OP_WIDTH, MDIC_OP_WRITE,
    MDIC_PHY_ADDR_LSB, MDIC_PHY_ADDR_WIDTH, MDIC_READY_MASK, MDIC_REGADDR_LSB, MDIC_REGADDR_WIDTH,
    MDIC_REG, SPEED_ENC_100, SPEED_ENC_1000, STATUS_FD_MASK, STATUS_LU_MASK, STATUS_PHYRA_MASK,
    STATUS_REG, STATUS_SPEED_LSB, STATUS_SPEED_WIDTH,
};

verus! {

/// The negotiated link speed.
#[derive(Debug, Clone, Copy, PartialEq, Eq, PartialOrd, Ord)]
pub enum Speed {
    Mb1000,
    Mb100,
    Mb10,
}

/// The physical attachment the MAC was strapped to, decoded from
/// CTRL_EXT.LINK_MODE.
#[derive(Debug, Clone, Copy, PartialEq, Eq)]
pub enum LinkMode {
    DirectCooper,
    Sgmii,
    InternalSerdes,
}

/// A snapshot of the link state, derived purely from one read of the STATUS
/// register; never cached.
#[derive(Debug, Clone, Copy)]
pub struct MacStatus {
    pub full_duplex: bool,
    pub link_up: bool,
    pub speed: Speed,
    pub phy_reset_asserted: bool,
}

/// A six-byte Ethernet station address.
#[derive(Debug, Clone, Copy, PartialEq, Eq)]
pub struct MacAddr6(pub [u8; 6]);

/// The lower-case hexadecimal digit for a value under 16.
pub open spec fn spec_hex_digit(v: u8) -> char {
    if v == 0 {
        '0'
    } else if v == 1 {
        '1'
    } else if v == 2 {
        '2'
    } else if v == 3 {
        '3'
    } else if v == 4 {
        '4'
    } else if v == 5 {
        '5'
    } else if v == 6 {
        '6'
    } else if v == 7 {
        '7'
    } else if v == 8 {
        '8'
    } else if v == 9 {
        '9'
    } else if v == 10 {
        'a'
    } else if v == 11 {
        'b'
    } else if v == 12 {
        'c'
    } else if v == 13 {
        'd'
    } else if v == 14 {
        'e'
    } else {
        'f'
    }
}

/// A byte as two lower-case hexadecimal digits.
pub open spec fn spec_hex_byte(b: u8) -> Seq<char> {
    seq![spec_hex_digit((b / 16) as u8), spec_hex_digit((b % 16) as u8)]
}

/// A six-byte address in the conventional colon-separated notation.
pub open spec fn spec_mac_text(a: [u8; 6]) -> Seq<char> {
    spec_hex_byte(a[0]) + seq![':'] + spec_hex_byte(a[1]) + seq![':'] + spec_hex_byte(a[2])
        + seq![':'] + spec_hex_byte(a[3]) + seq![':'] + spec_hex_byte(a[4]) + seq![':']
        + spec_hex_byte(a[5])
}

/// The lower-case hexadecimal digit for a value under 16, as a string
/// slice.
fn hex_digit_str(v: u8) -> (r: &'static str)
    requires
        v < 16,
    ensures
        r@ =~= seq![spec_hex_digit(v)],
{
    proof {
        reveal_strlit("0");
        reveal_strlit("1");
        reveal_strlit("2");
        reveal_strlit("3");
        reveal_strlit("4");
        reveal_strlit("5");
        reveal_strlit("6");
        reveal_strlit("7");
        reveal_strlit("8");
        reveal_strlit("9");
        reveal_strlit("a");
        reveal_strlit("b");
        reveal_strlit("c");
        reveal_strlit("d");
        reveal_strlit("e");
        reveal_strlit("f");
    }
    match v {
        0 => "0",
        1 => "1",
        2 => "2",
        3 => "3",
        4 => "4",
        5 => "5",
        6 => "6",
        7 => "7",
        8 => "8",
        9 => "9",
        10 => "a",
        11 => "b",
        12 => "c",
        13 => "d",
        14 => "e",
        _ => "f",
    }
}

impl MacAddr6 {
    /// The bytes of the address, in transmission order.
    pub closed spec fn spec_bytes(&self) -> [u8; 6] {
        self.0
    }

    pub fn new(bytes: [u8; 6]) -> (r: Self)
        ensures
            r.spec_bytes() == bytes,
    {
        MacAddr6(bytes)
    }

    pub fn bytes(&self) -> (r: [u8; 6])
        ensures
            r == self.spec_bytes(),
    {
        self.0
    }

    /// The address in the conventional `xx:xx:xx:xx:xx:xx` notation, lower
    /// case.
    pub fn hex_string(&self) -> (r: String)
        ensures
            r@ == spec_mac_text(self.spec_bytes()),
    {
        let mut out = String::new();
        let mut i: usize = 0;
        while i < 6
            invariant
                i <= 6,
                out@ =~= spec_mac_prefix(self.0, i as nat),
            decreases 6 - i,
        {
            if i > 0 {
                out.append(":");
            }
            let b = self.0[i];
            assert(b >> 4u8 == b / 16 && b >> 4u8 < 16 && (b & 0xF) == b % 16 && (b & 0xF) < 16)
                by (bit_vector);
            out.append(hex_digit_str(b >> 4));
            out.append(hex_digit_str(b & 0xF));
            proof {
                reveal_strlit(":");
                reveal_with_fuel(spec_mac_prefix, 2);
                assert((b / 16) as u8 == b >> 4 && (b % 16) as u8 == (b & 0xF));
                assert(seq![spec_hex_digit(b >> 4)] + seq![spec_hex_digit(b & 0xF)]
                    =~= spec_hex_byte(b));
                if i > 0 {
                    assert(spec_mac_prefix(self.0, (i + 1) as nat) == spec_mac_prefix(
                        self.0,
                        i as nat,
                    ) + seq![':'] + spec_hex_byte(self.0[i as int]));
                }
                assert(out@ =~= spec_mac_prefix(self.0, (i + 1) as nat));
            }
            i = i + 1;
        }
        proof {
            reveal_with_fuel(spec_mac_prefix, 7);
        }
        assert(spec_mac_prefix(self.0, 6) =~= spec_mac_text(self.0));
        out
    }
}

/// The colon-separated notation of the first `n` bytes of an address.
pub open spec fn spec_mac_prefix(a: [u8; 6], n: nat) -> Seq<char>
    decreases n,
{
    if n == 0 {
        Seq::empty()
    } else if n == 1 {
        spec_hex_byte(a[0])
    } else {
        spec_mac_prefix(a, (n - 1) as nat) + seq![':'] + spec_hex_byte(a[n - 1])
    }
}

impl From<[u8; 6]> for MacAddr6 {
    fn from(addr: [u8; 6]) -> (r: Self) {
        MacAddr6(addr)
    }
}

impl vstd::std_specs::convert::FromSpecImpl<[u8; 6]> for MacAddr6 {
    open spec fn obeys_from_spec() -> bool {
        true
    }

    open spec fn from_spec(addr: [u8; 6]) -> Self {
        MacAddr6(addr)
    }
}

impl From<MacAddr6> for [u8; 6] {
    fn from(addr: MacAddr6) -> (r: Self) {
        addr.0
    }
}

impl vstd::std_specs::convert::FromSpecImpl<MacAddr6> for [u8; 6] {
    open spec fn obeys_from_spec() -> bool {
        true
    }

    open spec fn from_spec(addr: MacAddr6) -> Self {
        addr.0
    }
}

/// The speed a raw 2-bit STATUS.SPEED encoding decodes to: `0b10` is
/// 1000 Mb/s and `0b01` is 100 Mb/s; every other encoding decodes to the
/// slowest enumerated speed as a conservative default.
pub open spec fn spec_decode_speed(bits: u32) -> Speed {
    if bits == SPEED_ENC_1000 {
        Speed::Mb1000
    } else if bits == SPEED_ENC_100 {
        Speed::Mb100
    } else {
        Speed::Mb10
    }
}

/// The status snapshot a raw STATUS register word decodes to.
pub open spec fn spec_decode_status(w: u32) -> MacStatus {
    MacStatus {
        full_duplex: w & STATUS_FD_MASK != 0,
        link_up: w & STATUS_LU_MASK != 0,
        speed: spec_decode_speed(spec_get_field(w, STATUS_SPEED_LSB, STATUS_SPEED_WIDTH)),
        phy_reset_asserted: w & STATUS_PHYRA_MASK != 0,
    }
}

/// The status snapshot the next STATUS read of a register block decodes to.
pub open spec fn spec_status_of<B: RegisterBlock>(b: B) -> MacStatus {
    spec_decode_status(b.read_value(STATUS_REG))
}

/// The link mode a raw CTRL_EXT register word decodes to; `None` stands for
/// an encoding outside the known set, which is expected hardware behaviour
/// and no fault.
pub open spec fn spec_decode_link_mode(w: u32) -> Option<LinkMode> {
    let bits = spec_get_field(w, CTRL_EXT_LINK_MODE_LSB, CTRL_EXT_LINK_MODE_WIDTH);
    if bits == LINK_MODE_DIRECT_COPPER {
        Some(LinkMode::DirectCooper)
    } else if bits == LINK_MODE_SGMII {
        Some(LinkMode::Sgmii)
    } else if bits == LINK_MODE_INTERNAL_SERDES {
        Some(LinkMode::InternalSerdes)
    } else {
        None
    }
}

/// The MDIC command word assembling an opcode, a 5-bit PHY address, a 5-bit
/// register address and 16 data bits; each part is truncated to its field.
pub open spec fn spec_mdic_command(op: u32, phy_addr: u32, reg_addr: u32, data: u16) -> u32 {
    spec_set_field(
        spec_set_field(
            spec_set_field(
                spec_set_field(0, MDIC_DATA_LSB, MDIC_DATA_WIDTH, data as u32),
                MDIC_REGADDR_LSB,
                MDIC_REGADDR_WIDTH,
                reg_addr,
            ),
            MDIC_PHY_ADDR_LSB,
            MDIC_PHY_ADDR_WIDTH,
            phy_addr,
        ),
        MDIC_OP_LSB,
        MDIC_OP_WIDTH,
        op,
    )
}

/// Builds an MDIC command word.
pub fn mdic_command(op: u32, phy_addr: u32, reg_addr: u32, data: u16) -> (r: u32)
    ensures
        r == spec_mdic_command(op, phy_addr, reg_addr, data),
{
    let w = set_field(0, MDIC_DATA_LSB, MDIC_DATA_WIDTH, data as u32);
    let w = set_field(w, MDIC_REGADDR_LSB, MDIC_REGADDR_WIDTH, reg_addr);
    let w = set_field(w, MDIC_PHY_ADDR_LSB, MDIC_PHY_ADDR_WIDTH, phy_addr);
    set_field(w, MDIC_OP_LSB, MDIC_OP_WIDTH, op)
}

/// An MDIC word of a transaction still in flight: neither READY nor E set.
pub open spec fn mdic_pending(w: u32) -> bool {
    w & MDIC_READY_MASK == 0 && w & MDIC_E_MASK == 0
}

/// The `k`-th MDIC poll is the first that completes, and it completes ready.
pub open spec fn mdic_done_ready_at<B: RegisterBlock>(b: B, k: nat) -> bool {
    &&& nth_read(b, MDIC_REG, k) & MDIC_READY_MASK != 0
    &&& forall|j: nat| j < k ==> mdic_pending(nth_read(b, MDIC_REG, j))
}

/// The `k`-th MDIC poll is the first that completes, and it reports an error
/// without reporting ready.
pub open spec fn mdic_done_error_at<B: RegisterBlock>(b: B, k: nat) -> bool {
    &&& nth_read(b, MDIC_REG, k) & MDIC_READY_MASK == 0
    &&& nth_read(b, MDIC_REG, k) & MDIC_E_MASK != 0
    &&& forall|j: nat| j < k ==> mdic_pending(nth_read(b, MDIC_REG, j))
}

/// Law: the speed decode table, over every valid 2-bit STATUS.SPEED
/// encoding: `0b10` decodes to 1000 Mb/s and `0b01` to 100 Mb/s, while
/// `0b00` and the unspecified `0b11` decode conservatively to the slowest
/// enumerated speed.
pub proof fn lemma_speed_decode_table(w: u32)
    ensures
        spec_get_field(w, STATUS_SPEED_LSB, STATUS_SPEED_WIDTH) == 0b10 ==> spec_decode_status(
            w,
        ).speed == Speed::Mb1000,
        spec_get_field(w, STATUS_SPEED_LSB, STATUS_SPEED_WIDTH) == 0b01 ==> spec_decode_status(
            w,
        ).speed == Speed::Mb100,
        spec_get_field(w, STATUS_SPEED_LSB, STATUS_SPEED_WIDTH) == 0b00 ==> spec_decode_status(
            w,
        ).speed == Speed::Mb10,
        spec_get_field(w, STATUS_SPEED_LSB, STATUS_SPEED_WIDTH) == 0b11 ==> spec_decode_status(
            w,
        ).speed == Speed::Mb10,
{
}

/// Law: the status snapshot is a pure read. On any register block where
/// observing STATUS leaves the next STATUS read unchanged — which holds of
/// every block without an intervening register write, STATUS having no
/// read side effect — two consecutive status decodes are identical.
pub proof fn lemma_status_idempotent<B: RegisterBlock>(b: B)
    requires
        b.after_read(STATUS_REG).read_value(STATUS_REG) == b.read_value(STATUS_REG),
    ensures
        spec_status_of(b.after_read(STATUS_REG)) == spec_status_of(b),
{
}

/// The observable state of a register block after the reset command was
/// issued: the reset and PHY-reset bits are set on top of the current CTRL
/// value in one write.
pub open spec fn reset_issued<B: RegisterBlock>(b: B) -> B {
    b.after_read(CTRL_REG).after_write(
        CTRL_REG,
        b.read_value(CTRL_REG) | CTRL_RST_MASK | CTRL_PHY_RST_MASK,
    )
}

/// Relies on `mbarrier::mb`: a full memory barrier, ordering the MDIC
/// command store before the polling loads on weakly-ordered systems. It
/// touches no register, so it has no effect on the observable register
/// state.
#[verifier::external_body]
fn memory_barrier() {
    mbarrier::mb();
}

/// The MAC driver: the single authoritative owner of the register-block
/// capability. Every MAC register access of the system goes through one
/// value of this type.
pub struct Mac<B: RegisterBlock> {
    bus: B,
}

impl<B: RegisterBlock> Mac<B> {
    /// The observable state of the underlying register block.
    pub closed spec fn model(&self) -> B {
        self.bus
    }

    pub fn new(bus: B) -> (r: Self)
        ensures
            r.model() == bus,
    {
        Mac { bus }
    }

    /// A shared view of the underlying register block.
    pub fn reg(&self) -> (r: &B)
        ensures
            *r == self.model(),
    {
        &self.bus
    }

    /// Reads STATUS once and decodes the duplex, link-up, speed and
    /// PHY-reset bits. No error path: an unrecognized speed encoding decodes
    /// to the conservative default.
    pub fn status(&mut self) -> (r: MacStatus)
        ensures
            r == spec_status_of(old(self).model()),
            final(self).model() == old(self).model().after_read(STATUS_REG),
    {
        let w = self.bus.read_reg(STATUS_REG);
        let speed_bits = get_field(w, STATUS_SPEED_LSB, STATUS_SPEED_WIDTH);
        let speed = if speed_bits == SPEED_ENC_1000 {
            Speed::Mb1000
        } else if speed_bits == SPEED_ENC_100 {
            Speed::Mb100
        } else {
            Speed::Mb10
        };
        MacStatus {
            full_duplex: w & STATUS_FD_MASK != 0,
            link_up: w & STATUS_LU_MASK != 0,
            speed,
            phy_reset_asserted: w & STATUS_PHYRA_MASK != 0,
        }
    }

    /// Performs an MDIO write transaction: one MDIC command write, a memory
    /// barrier, then a tight poll of MDIC until the hardware reports the
    /// transaction ready or in error. The poll carries the largest
    /// representable attempt budget in place of an unbounded spin, so a
    /// stalled device cannot hang the driver forever.
    pub fn write_mdic(&mut self, phys_addr: u32, offset: u32, data: u16) -> (r: Result<
        (),
        DError,
    >)
        ensures
            ({
                let b1 = old(self).model().after_write(
                    MDIC_REG,
                    spec_mdic_command(MDIC_OP_WRITE, phys_addr, offset, data),
                );
                match r {
                    Ok(()) => exists|k: nat|
                        #[trigger] mdic_done_ready_at(b1, k) && final(self).model() == nth_state(
                            b1,
                            MDIC_REG,
                            k + 1,
                        ),
                    Err(e) => {
                        ||| {
                            &&& e == DError::Unknown("MDIC read error")
                            &&& exists|k: nat|
                                #[trigger] mdic_done_error_at(b1, k) && final(self).model()
                                    == nth_state(b1, MDIC_REG, k + 1)
                        }
                        ||| {
                            &&& e == DError::Timeout
                            &&& forall|k: nat|
                                k < usize::MAX as nat ==> mdic_pending(nth_read(b1, MDIC_REG, k))
                            &&& final(self).model() == nth_state(b1, MDIC_REG, usize::MAX as nat)
                        }
                    },
                }
            }),
    {
        let cmd = mdic_command(MDIC_OP_WRITE, phys_addr, offset, data);
        self.bus.write_reg(MDIC_REG, cmd);
        memory_barrier();
        let ghost b1 = self.bus;
        let mut attempts: usize = 0;
        loop
            invariant
                b1 == old(self).model().after_write(
                    MDIC_REG,
                    spec_mdic_command(MDIC_OP_WRITE, phys_addr, offset, data),
                ),
                self.bus == nth_state(b1, MDIC_REG, attempts as nat),
                forall|j: nat| j < attempts ==> mdic_pending(nth_read(b1, MDIC_REG, j)),
            decreases usize::MAX - attempts,
        {
            if attempts >= usize::MAX {
                return Err(DError::Timeout);
            }
            let w = self.bus.read_reg(MDIC_REG);
            if w & MDIC_READY_MASK != 0 {
                assert(mdic_done_ready_at(b1, attempts as nat));
                return Ok(());
            }
            if w & MDIC_E_MASK != 0 {
                assert(mdic_done_error_at(b1, attempts as nat));
                return Err(DError::Unknown("MDIC read error"));
            }
            attempts = attempts + 1;
        }
    }

    /// Performs an MDIO read transaction, polling like `write_mdic`; on
    /// completion it returns the 16 data bits of the completing MDIC word.
    pub fn read_mdic(&mut self, phys_addr: u32, offset: u32) -> (r: Result<u16, DError>)
        ensures
            ({
                let b1 = old(self).model().after_write(
                    MDIC_REG,
                    spec_mdic_command(MDIC_OP_READ, phys_addr, offset, 0),
                );
                match r {
                    Ok(data) => exists|k: nat|
                        #[trigger] mdic_done_ready_at(b1, k) && data as u32 == spec_get_field(
                            nth_read(b1, MDIC_REG, k),
                            MDIC_DATA_LSB,
                            MDIC_DATA_WIDTH,
                        ) && final(self).model() == nth_state(b1, MDIC_REG, k + 1),
                    Err(e) => {
                        ||| {
                            &&& e == DError::Unknown("MDIC read error")
                            &&& exists|k: nat|
                                #[trigger] mdic_done_error_at(b1, k) && final(self).model()
                                    == nth_state(b1, MDIC_REG, k + 1)
                        }
                        ||| {
                            &&& e == DError::Timeout
                            &&& forall|k: nat|
                                k < usize::MAX as nat ==> mdic_pending(nth_read(b1, MDIC_REG, k))
                            &&& final(self).model() == nth_state(b1, MDIC_REG, usize::MAX as nat)
                        }
                    },
                }
            }),
    {
        let cmd = mdic_command(MDIC_OP_READ, phys_addr, offset, 0);
        self.bus.write_reg(MDIC_REG, cmd);
        memory_barrier();
        let ghost b1 = self.bus;
        let mut attempts: usize = 0;
        loop
            invariant
                b1 == old(self).model().after_write(
                    MDIC_REG,
                    spec_mdic_command(MDIC_OP_READ, phys_addr, offset, 0),
                ),
                self.bus == nth_state(b1, MDIC_REG, attempts as nat),
                forall|j: nat| j < attempts ==> mdic_pending(nth_read(b1, MDIC_REG, j)),
            decreases usize::MAX - attempts,
        {
            if attempts >= usize::MAX {
                return Err(DError::Timeout);
            }
            let w = self.bus.read_reg(MDIC_REG);
            if w & MDIC_READY_MASK != 0 {
                assert(mdic_done_ready_at(b1, attempts as nat));
                let d = get_field(w, MDIC_DATA_LSB, MDIC_DATA_WIDTH);
                assert((w >> 0u32) & !(0xFFFF_FFFFu32 << 16u32) < 0x10000u32) by (bit_vector);
                return Ok(d as u16);
            }
            if w & MDIC_E_MASK != 0 {
                assert(mdic_done_error_at(b1, attempts as nat));
                return Err(DError::Unknown("MDIC read error"));
            }
            attempts = attempts + 1;
        }
    }

    /// Masks every extended interrupt cause, then acknowledges latched
    /// causes.
    pub fn disable_interrupts(&mut self)
        ensures
            final(self).model() == old(self).model().after_write(EIMC_REG, u32::MAX).after_write(
                EIMC_REG,
                u32::MAX,
            ).after_read(EICR_REG),
    {
        self.bus.write_reg(EIMC_REG, u32::MAX);
        self.clear_interrupts();
    }

    /// Unmasks every extended interrupt cause.
    pub fn enable_interrupts(&mut self)
        ensures
            final(self).model() == old(self).model().after_write(EIMS_REG, u32::MAX),
    {
        self.bus.write_reg(EIMS_REG, u32::MAX);
    }

    /// Masks every extended interrupt cause and reads EICR once: on this
    /// hardware family the read itself clears the latched causes, so the
    /// read stands for its side effect and its value is discarded.
    pub fn clear_interrupts(&mut self)
        ensures
            final(self).model() == old(self).model().after_write(EIMC_REG, u32::MAX).after_read(
                EICR_REG,
            ),
    {
        self.bus.write_reg(EIMC_REG, u32::MAX);
        let _ = self.bus.read_reg(EICR_REG);
    }

    /// Decodes CTRL_EXT's link-mode field; `None` signals an encoding
    /// outside the known set.
    pub fn link_mode(&mut self) -> (r: Option<LinkMode>)
        ensures
            r == spec_decode_link_mode(old(self).model().read_value(CTRL_EXT_REG)),
            final(self).model() == old(self).model().after_read(CTRL_EXT_REG),
    {
        let w = self.bus.read_reg(CTRL_EXT_REG);
        let bits = get_field(w, CTRL_EXT_LINK_MODE_LSB, CTRL_EXT_LINK_MODE_WIDTH);
        if bits == LINK_MODE_DIRECT_COPPER {
            Some(LinkMode::DirectCooper)
        } else if bits == LINK_MODE_SGMII {
            Some(LinkMode::Sgmii)
        } else if bits == LINK_MODE_INTERNAL_SERDES {
            Some(LinkMode::InternalSerdes)
        } else {
            None
        }
    }

    /// Sets the reset and PHY-reset bits in one CTRL write, then polls CTRL
    /// until the self-clearing reset bit reads back as normal, yielding with
    /// a 1 ms sleep after each poll that still reads it set, and giving up
    /// with `Timeout` after exactly 1000 attempts.
    pub fn reset<K: Kernel>(&mut self, kernel: &mut K) -> (r: Result<(), DError>)
        ensures
            ({
                let b1 = reset_issued(old(self).model());
                match r {
                    Ok(()) => exists|k: nat|
                        #[trigger] clears_at(b1, CTRL_REG, CTRL_RST_MASK, k) && k < 1000
                            && final(self).model() == nth_state(b1, CTRL_REG, k + 1)
                            && final(kernel).sleeps() == old(kernel).sleeps() + Seq::new(
                            k,
                            |i: int| 1u64,
                        ),
                    Err(e) => {
                        &&& e == DError::Timeout
                        &&& forall|k: nat|
                            k < 1000 ==> nth_read(b1, CTRL_REG, k) & CTRL_RST_MASK != 0
                        &&& final(self).model() == nth_state(b1, CTRL_REG, 1000)
                        &&& final(kernel).sleeps() == old(kernel).sleeps() + Seq::new(
                            1000,
                            |i: int| 1u64,
                        )
                    },
                }
            }),
    {
        let cur = self.bus.read_reg(CTRL_REG);
        self.bus.write_reg(CTRL_REG, cur | CTRL_RST_MASK | CTRL_PHY_RST_MASK);
        let ghost b1 = self.bus;
        assert(b1 == reset_issued(old(self).model()));
        assert(poll_budget(Some(1000usize)) == 1000);
        let r = wait_for(&mut self.bus, kernel, CTRL_REG, CTRL_RST_MASK, 1, Some(1000));
        proof {
            if r is Ok {
                let k0 = choose|k: nat|
                    #[trigger] clears_at(b1, CTRL_REG, CTRL_RST_MASK, k) && k < poll_budget(
                        Some(1000usize),
                    ) && self.bus == nth_state(b1, CTRL_REG, k + 1) && kernel.sleeps() == old(
                        kernel,
                    ).sleeps() + Seq::new(k, |i: int| 1u64);
                assert(clears_at(b1, CTRL_REG, CTRL_RST_MASK, k0) && k0 < 1000 && self.model()
                    == nth_state(b1, CTRL_REG, k0 + 1) && kernel.sleeps() == old(kernel).sleeps()
                    + Seq::new(k0, |i: int| 1u64));
            }
        }
        r
    }

    /// Sets the set-link-up and full-duplex control bits in one
    /// read-modify-write of CTRL; fire and forget, link establishment is
    /// confirmed later through `status`.
    pub fn set_link_up(&mut self)
        ensures
            final(self).model() == old(self).model().after_read(CTRL_REG).after_write(
                CTRL_REG,
                old(self).model().read_value(CTRL_REG) | CTRL_SLU_MASK | CTRL_FD_MASK,
            ),
    {
        let cur = self.bus.read_reg(CTRL_REG);
        self.bus.write_reg(CTRL_REG, cur | CTRL_SLU_MASK | CTRL_FD_MASK);
    }

    /// Reads the raw bits of one field of one register.
    pub fn read_field(&mut self, reg: u64, lsb: u32, width: u32) -> (r: u32)
        requires
            valid_reg_offset(reg),
            valid_field(lsb, width),
        ensures
            r == spec_get_field(old(self).model().read_value(reg), lsb, width),
            final(self).model() == old(self).model().after_read(reg),
    {
        let w = self.bus.read_reg(reg);
        get_field(w, lsb, width)
    }

    /// Read-modify-write of one field of one register: only the declared
    /// bit range changes, every other bit of the word is written back as
    /// read.
    pub fn modify_field(&mut self, reg: u64, lsb: u32, width: u32, v: u32)
        requires
            valid_reg_offset(reg),
            valid_field(lsb, width),
        ensures
            final(self).model() == old(self).model().after_read(reg).after_write(
                reg,
                spec_set_field(old(self).model().read_value(reg), lsb, width, v),
            ),
    {
        let w = self.bus.read_reg(reg);
        self.bus.write_reg(reg, set_field(w, lsb, width, v));
    }
}

} // verus!
