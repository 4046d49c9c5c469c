use vstd::prelude::*;

verus! {

/// A bus/device/function triple identifying a PCI configuration-space
/// target; opaque beyond that.
#[derive(Debug, Clone, Copy, PartialEq, Eq)]
pub struct PciAddress {
    pub bus: u8,
    pub device: u8,
    pub function: u8,
}

/// The capability to read and write a 32-bit value of PCI configuration
/// space at a given address and register offset through a given mapped MMIO
/// base. The host's root-complex layer implements it; the core depends on
/// the contract existing, not on any implementation. The caller must
/// guarantee that the base and the address/offset pair are valid for the
/// target bus topology.
pub trait Chip: Send {
    /// Performs a PCI read at `address` with `offset`.
    fn read(&self, mmio_base: usize, address: PciAddress, offset: u16) -> u32;

    /// Performs a PCI write at `address` with `offset`.
    fn write(&self, mmio_base: usize, address: PciAddress, offset: u16, value: u32);
}

} // verus!
