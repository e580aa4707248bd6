//! PCI configuration space: one 32-bit word per aligned offset of each
//! (bus, slot, function). On hardware a word is reached by writing an address
//! word to the configuration address port and transferring through the data
//! port; here the space is explicit data, and reads and writes state exactly
//! which word they touch. A slot with no device behind it reads as all-ones.

use vstd::prelude::*;

verus! {

pub const PCI_BUSES: usize = 8;  // buses the model covers (the scan range)
pub const PCI_SLOTS: usize = 32;  // slots per bus
pub const PCI_FUNCS: usize = 8;  // functions per slot
pub const PCI_DWORDS: usize = 64;  // 32-bit config words per function

/// Total 32-bit words in the modelled configuration space.
pub const PCI_WORDS: usize = PCI_BUSES * PCI_SLOTS * PCI_FUNCS * PCI_DWORDS;

/// The coordinates the model covers.
pub open spec fn valid_cfg(bus: u8, slot: u8, func: u8) -> bool {
    bus < PCI_BUSES && slot < PCI_SLOTS && func < PCI_FUNCS
}

/// Index of the aligned configuration word for (bus, slot, func, offset);
/// the low two bits of the offset are ignored, as the ports do.
pub open spec fn cfg_idx(bus: u8, slot: u8, func: u8, offset: u8) -> int {
    ((bus as int * PCI_SLOTS + slot as int) * PCI_FUNCS + func as int) * PCI_DWORDS + offset as int
        / 4
}

/// The word written to the configuration address port to select
/// (bus, slot, func, aligned offset): the enable bit, then bus in bits 16..24,
/// slot in bits 11..16, function in bits 8..11, and the aligned offset. The
/// fields are disjoint, so packing them is plain addition.
pub open spec fn cfg_address(bus: u8, slot: u8, func: u8, offset: u8) -> u32 {
    (0x80000000 + bus as int * 0x10000 + slot as int * 0x800 + func as int * 0x100 + (offset as int
        / 4) * 4) as u32
}

/// Computes the configuration address word for the port interface.
pub fn pci_config_address(bus: u8, slot: u8, func: u8, offset: u8) -> (a: u32)
    requires
        slot < PCI_SLOTS,
        func < PCI_FUNCS,
    ensures
        a == cfg_address(bus, slot, func, offset),
{
    0x80000000u32 + (bus as u32) * 0x10000 + (slot as u32) * 0x800 + (func as u32) * 0x100 + (
    (offset as u32) / 4) * 4
}

/// The configuration space itself.
pub struct PciSpace {
    pub words: Vec<u32>,
}

impl PciSpace {
    /// The space covers the whole modelled range.
    pub open spec fn wf(&self) -> bool {
        self.words@.len() == PCI_WORDS
    }

    /// A bus with nothing on it: every configuration read sees all-ones,
    /// as reads of absent devices do.
    pub fn new() -> (p: PciSpace)
        ensures
            p.wf(),
            p.words@ == Seq::new(PCI_WORDS as nat, |i: int| 0xFFFFFFFFu32),
    {
        let mut words: Vec<u32> = Vec::new();
        let mut k: usize = 0;
        while k < PCI_WORDS
            invariant
                k <= PCI_WORDS,
                words@ =~= Seq::new(k as nat, |i: int| 0xFFFFFFFFu32),
            decreases PCI_WORDS - k,
        {
            words.push(0xFFFFFFFF);
            proof {
                assert(Seq::new((k + 1) as nat, |i: int| 0xFFFFFFFFu32) =~= Seq::new(
                    k as nat,
                    |i: int| 0xFFFFFFFFu32,
                ).push(0xFFFFFFFFu32));
            }
            k = k + 1;
        }
        proof {
            assert(words@ =~= Seq::new(PCI_WORDS as nat, |i: int| 0xFFFFFFFFu32));
        }
        PciSpace { words }
    }
}

/// Reads the aligned 32-bit configuration word of (bus, slot, func, offset).
pub fn pci_read(pci: &PciSpace, bus: u8, slot: u8, func: u8, offset: u8) -> (r: u32)
    requires
        pci.wf(),
        valid_cfg(bus, slot, func),
    ensures
        r == pci.words@[cfg_idx(bus, slot, func, offset)],
{
    let idx: usize = ((bus as usize * PCI_SLOTS + slot as usize) * PCI_FUNCS + func as usize)
        * PCI_DWORDS + offset as usize / 4;
    pci.words[idx]
}

/// Writes the aligned 32-bit configuration word of (bus, slot, func, offset),
/// leaving every other word as it was.
pub fn pci_write(pci: &mut PciSpace, bus: u8, slot: u8, func: u8, offset: u8, val: u32)
    requires
        old(pci).wf(),
        valid_cfg(bus, slot, func),
    ensures
        final(pci).wf(),
        final(pci).words@ == old(pci).words@.update(cfg_idx(bus, slot, func, offset), val),
{
    let idx: usize = ((bus as usize * PCI_SLOTS + slot as usize) * PCI_FUNCS + func as usize)
        * PCI_DWORDS + offset as usize / 4;
    pci.words[idx] = val;
}

} // verus!
