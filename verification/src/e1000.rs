//! The controller driver: device discovery over PCI, one-shot ring
//! initialisation, frame transmit with completion polling, and single-slot
//! receive polling.

use vstd::prelude::*;

use crate::devmem::{
    reg_idx, valid_reg, DevMem, RxDesc, TxDesc, BUF_SIZE, NUM_RX_DESC, NUM_TX_DESC, REG_CTRL,
    REG_ICR, REG_IMS, REG_RAH, REG_RAL, REG_RCTL, REG_RDBAH, REG_RDBAL, REG_RDH, REG_RDLEN,
    REG_RDT, REG_TCTL, REG_TDBAH, REG_TDBAL, REG_TDH, REG_TDLEN, REG_TDT, REG_TIPG, RX_BUF_BASE,
    RX_DESC_BASE, TX_BUF_BASE, TX_DESC_BASE,
};
use crate::net::{build_echo_frame, echo_frame, FRAME_LEN};
use crate::pci::{cfg_idx, pci_read, pci_write, PciSpace, PCI_BUSES, PCI_SLOTS};
use crate::vga::{blank_screen, spec_print, VgaWriter};

verus! {

/// The expected vendor identifier in the low half of a vendor/device word.
pub const VENDOR_ID: u32 = 0x8086;

/// The three accepted device variants in the high half.
pub const DEVICE_ID_A: u32 = 0x100E;

pub const DEVICE_ID_B: u32 = 0x100F;

pub const DEVICE_ID_C: u32 = 0x10D3;

/// Device-reset bit of the control register.
pub const CTRL_RESET: u32 = 0x04000000;

/// Receiver enable flags: enable, unicast/multicast promiscuous, broadcast
/// accept, 2 KB buffers, strip CRC.
pub const RCTL_ENABLE: u32 = 0x00000002 | 0x00000008 | 0x00000010 | 0x00008000 | 0x04000000 | (1
    << 26);

/// Transmitter enable flags: enable, pad short packets, collision threshold
/// and distance.
pub const TCTL_ENABLE: u32 = 0x00000002 | 0x00000008 | (15 << 4) | (63 << 12);

/// Inter-packet gap timing value.
pub const TIPG_INIT: u32 = 0x00702008;

/// The driver's fixed MAC address.
pub open spec fn driver_mac() -> Seq<u8> {
    seq![0x52u8, 0x54, 0x00, 0x12, 0x34, 0x56]
}

/// MAC filter low register: the first four address bytes packed little-endian.
pub open spec fn mac_filter_low(mac: Seq<u8>) -> u32 {
    (mac[0] + mac[1] * 0x100 + mac[2] * 0x10000 + mac[3] * 0x1000000) as u32
}

/// MAC filter high register: the last two address bytes packed little-endian,
/// with the top bit marking the filter entry valid.
pub open spec fn mac_filter_high(mac: Seq<u8>) -> u32 {
    (mac[4] + mac[5] * 0x100 + 0x80000000) as u32
}

/// RX descriptor `i` as initialisation leaves it: addressing buffer slot `i`,
/// every other field zero.
pub open spec fn rx_desc_init(i: int) -> RxDesc {
    RxDesc {
        addr: (RX_BUF_BASE + i * BUF_SIZE) as u64,
        length: 0,
        checksum: 0,
        status: 0,
        errors: 0,
        special: 0,
    }
}

/// TX descriptor `i` as initialisation leaves it: addressing buffer slot `i`,
/// with status 1 so the slot's first use does not look like a pending send.
pub open spec fn tx_desc_init(i: int) -> TxDesc {
    TxDesc {
        addr: (TX_BUF_BASE + i * BUF_SIZE) as u64,
        length: 0,
        cso: 0,
        cmd: 0,
        status: 1,
        css: 0,
        special: 0,
    }
}

/// The registers that `init` programs, by register-file index.
pub open spec fn init_writes_reg(r: int) -> bool {
    ||| r == reg_idx(REG_IMS)
    ||| r == reg_idx(REG_CTRL)
    ||| r == reg_idx(REG_RDBAL)
    ||| r == reg_idx(REG_RDBAH)
    ||| r == reg_idx(REG_RDLEN)
    ||| r == reg_idx(REG_RDH)
    ||| r == reg_idx(REG_RDT)
    ||| r == reg_idx(REG_RAL)
    ||| r == reg_idx(REG_RAH)
    ||| r == reg_idx(REG_RCTL)
    ||| r == reg_idx(REG_TDBAL)
    ||| r == reg_idx(REG_TDBAH)
    ||| r == reg_idx(REG_TDLEN)
    ||| r == reg_idx(REG_TDH)
    ||| r == reg_idx(REG_TDT)
    ||| r == reg_idx(REG_TIPG)
    ||| r == reg_idx(REG_TCTL)
}

/// A vendor/device identification word of a supported controller.
pub open spec fn is_supported_id(vd: u32) -> bool {
    &&& vd & 0xFFFF == VENDOR_ID
    &&& {
        ||| (vd >> 16) & 0xFFFF == DEVICE_ID_A
        ||| (vd >> 16) & 0xFFFF == DEVICE_ID_B
        ||| (vd >> 16) & 0xFFFF == DEVICE_ID_C
    }
}

/// A supported controller answers at function 0 of (bus, slot).
pub open spec fn matches_at(words: Seq<u32>, bus: u8, slot: u8) -> bool {
    is_supported_id(words[cfg_idx(bus, slot, 0, 0)])
}

/// (b, s) comes before (bus, slot) in scan order: buses outermost.
pub open spec fn scan_earlier(b: u8, s: u8, bus: u8, slot: u8) -> bool {
    b < bus || (b == bus && s < slot)
}

/// No supported controller anywhere before (bus, slot) in scan order.
pub open spec fn no_match_before(words: Seq<u32>, bus: u8, slot: u8) -> bool {
    forall|b: u8, s: u8|
        b < PCI_BUSES && s < PCI_SLOTS && scan_earlier(b, s, bus, slot) ==> !(
        #[trigger] matches_at(words, b, s))
}

/// No supported controller anywhere in the scanned space.
pub open spec fn no_supported_device(words: Seq<u32>) -> bool {
    forall|b: u8, s: u8| b < PCI_BUSES && s < PCI_SLOTS ==> !(#[trigger] matches_at(words, b, s))
}

/// A configuration space in which every word reads all-ones — a bus with
/// nothing on it — holds no supported controller, so `find_device` must
/// report failure over it, and its failure contract leaves the session
/// state untouched.
pub proof fn lemma_all_ones_has_no_device(words: Seq<u32>)
    requires
        words.len() == crate::pci::PCI_WORDS,
        forall|i: int| 0 <= i < words.len() ==> words[i] == 0xFFFFFFFFu32,
    ensures
        no_supported_device(words),
{
    assert(0xFFFFFFFFu32 & 0xFFFF == 0xFFFF) by (bit_vector);
    assert forall|b: u8, s: u8| b < PCI_BUSES && s < PCI_SLOTS implies !matches_at(
        words,
        b,
        s,
    ) by {
        assert(0 <= cfg_idx(b, s, 0, 0) < words.len());
    }
}

/// The tail cursor one slot on from `t`, wrapping at the TX ring size.
pub open spec fn next_tx_tail(t: int) -> int {
    (t + 1) % (NUM_TX_DESC as int)
}

/// The slot the receive poll inspects: one past the RX tail cursor, wrapping.
pub open spec fn next_rx_slot(t: int) -> int {
    (t + 1) % (NUM_RX_DESC as int)
}

/// The TX tail cursor after `n` sends from a freshly initialised ring.
pub open spec fn tail_after_sends(n: nat) -> int
    decreases n,
{
    if n == 0 {
        0
    } else {
        next_tx_tail(tail_after_sends((n - 1) as nat))
    }
}

/// After `n` sends from a freshly initialised ring the tail cursor sits at
/// `n` modulo the ring size: each send advances it by exactly one slot,
/// wrapping, and `send_ping` writes that same value to the hardware tail
/// register.
pub proof fn lemma_tail_after_sends(n: nat)
    ensures
        tail_after_sends(n) == n as int % (NUM_TX_DESC as int),
    decreases n,
{
    if n > 0 {
        lemma_tail_after_sends((n - 1) as nat);
        vstd::arithmetic::div_mod::lemma_add_mod_noop((n - 1) as int, 1, NUM_TX_DESC as int);
    }
}

/// The echo-reply classification: strictly longer than 34 bytes, the IPv4
/// protocol byte (offset 23) is ICMP, and the ICMP type byte (offset 34) is
/// echo reply.
pub open spec fn is_echo_reply(len: int, buf: Seq<u8>) -> bool {
    len > 34 && buf[23] == 0x01 && buf[34] == 0x00
}

/// The driver session: MMIO base (0 until discovery), the diagnostic
/// display, the two ring tail cursors, and the driver's MAC address.
pub struct E1000 {
    pub base: u32,
    pub vga: VgaWriter,
    pub tx_tail: usize,
    pub rx_tail: usize,
    pub mac: [u8; 6],
}

impl E1000 {
    /// Both tail cursors stay inside their rings, the MAC address is the
    /// driver's fixed one, and the display is well-formed.
    pub open spec fn inv(&self) -> bool {
        &&& self.tx_tail < NUM_TX_DESC
        &&& self.rx_tail < NUM_RX_DESC
        &&& self.mac@ == driver_mac()
        &&& self.vga.wf()
    }

    /// A fresh session: no base yet, both tails at slot 0, a blank display.
    pub fn new() -> (nic: E1000)
        ensures
            nic.inv(),
            nic.base == 0,
            nic.tx_tail == 0,
            nic.rx_tail == 0,
            nic.mac@ == driver_mac(),
            nic.vga@.line == 0,
            nic.vga@.screen == blank_screen(),
    {
        let nic = E1000 {
            base: 0,
            vga: VgaWriter::new(),
            tx_tail: 0,
            rx_tail: 0,
            mac: [0x52, 0x54, 0x00, 0x12, 0x34, 0x56],
        };
        proof {
            assert(nic.mac@ =~= driver_mac());
        }
        nic
    }

    /// Writes one diagnostic line to the display; no other session state moves.
    pub fn print(&mut self, msg: &[u8])
        requires
            old(self).inv(),
        ensures
            final(self).inv(),
            final(self).vga@ == spec_print(old(self).vga@, msg@),
            final(self).base == old(self).base,
            final(self).tx_tail == old(self).tx_tail,
            final(self).rx_tail == old(self).rx_tail,
            final(self).mac == old(self).mac,
    {
        self.vga.print(msg);
    }

    /// One 32-bit register write at `base + reg`. On hardware this is a
    /// volatile store followed by a full memory fence, so the device never
    /// observes it reordered against descriptor-memory accesses.
    fn write_reg(&self, dev: &mut DevMem, reg: u32, val: u32)
        requires
            old(dev).wf(),
            valid_reg(reg),
        ensures
            final(dev).wf(),
            final(dev).regs@ == old(dev).regs@.update(reg_idx(reg), val),
            final(dev).tx_descs@ == old(dev).tx_descs@,
            final(dev).rx_descs@ == old(dev).rx_descs@,
            final(dev).tx_bufs@ == old(dev).tx_bufs@,
            final(dev).rx_bufs@ == old(dev).rx_bufs@,
    {
        let idx = (reg / 4) as usize;
        dev.regs[idx] = val;
    }

    /// One 32-bit register read at `base + reg`, fenced like a write. Side
    /// effects the device attaches to a read (the interrupt-cause register
    /// clears itself) are the device's, not the model's.
    fn read_reg(&self, dev: &DevMem, reg: u32) -> (r: u32)
        requires
            dev.wf(),
            valid_reg(reg),
        ensures
            r == dev.regs@[reg_idx(reg)],
    {
        let idx = (reg / 4) as usize;
        dev.regs[idx]
    }

    /// Busy-waits for `count` spin iterations. The count is an iteration
    /// budget, not a wall-clock duration; on hardware each iteration is a
    /// low-power spin hint.
    pub fn delay(&self, count: u32) {
        let mut k: u32 = 0;
        while k < count
            invariant
                k <= count,
            decreases count - k,
        {
            k = k + 1;
        }
    }

    /// Scans buses then slots (function 0 only) for a supported controller.
    /// At the first match it enables bus-master and memory-space in that
    /// device's command register, records the MMIO base from the first base
    /// address register with its low flag bits masked off, and reports
    /// success. If the scan runs out, it reports failure with the session
    /// and the configuration space untouched (only the display moves).
    pub fn find_device(&mut self, pci: &mut PciSpace) -> (found: bool)
        requires
            old(self).inv(),
            old(pci).wf(),
        ensures
            final(self).inv(),
            final(pci).wf(),
            final(self).tx_tail == old(self).tx_tail,
            final(self).rx_tail == old(self).rx_tail,
            final(self).mac == old(self).mac,
            !found ==> {
                &&& no_supported_device(old(pci).words@)
                &&& final(pci).words@ == old(pci).words@
                &&& final(self).base == old(self).base
            },
            found ==> exists|b: u8, s: u8|
                {
                    &&& b < PCI_BUSES
                    &&& s < PCI_SLOTS
                    &&& #[trigger] matches_at(old(pci).words@, b, s)
                    &&& no_match_before(old(pci).words@, b, s)
                    &&& final(self).base == old(pci).words@[cfg_idx(b, s, 0, 0x10)] & 0xFFFFFFF0
                    &&& final(pci).words@ == old(pci).words@.update(
                        cfg_idx(b, s, 0, 0x04),
                        old(pci).words@[cfg_idx(b, s, 0, 0x04)] | 0x06,
                    )
                },
    {
        self.print("Searching for E1000...".as_bytes());
        let ghost words0 = pci.words@;
        let mut bus: u8 = 0;
        while bus < 8
            invariant
                bus <= 8,
                self.inv(),
                pci.wf(),
                pci.words@ == words0,
                words0 == old(pci).words@,
                self.base == old(self).base,
                self.tx_tail == old(self).tx_tail,
                self.rx_tail == old(self).rx_tail,
                self.mac == old(self).mac,
                forall|b: u8, s: u8|
                    b < bus && s < PCI_SLOTS ==> !(#[trigger] matches_at(words0, b, s)),
            decreases 8 - bus,
        {
            let mut slot: u8 = 0;
            while slot < 32
                invariant
                    bus < 8,
                    slot <= 32,
                    self.inv(),
                    pci.wf(),
                    pci.words@ == words0,
                    words0 == old(pci).words@,
                    self.base == old(self).base,
                    self.tx_tail == old(self).tx_tail,
                    self.rx_tail == old(self).rx_tail,
                    self.mac == old(self).mac,
                    forall|b: u8, s: u8|
                        b < bus && s < PCI_SLOTS ==> !(#[trigger] matches_at(words0, b, s)),
                    forall|s: u8| s < slot ==> !(#[trigger] matches_at(words0, bus, s)),
                decreases 32 - slot,
            {
                let vendor_device = pci_read(pci, bus, slot, 0, 0);
                if vendor_device == 0xFFFFFFFF || vendor_device == 0 {
                    proof {
                        assert(0xFFFFFFFFu32 & 0xFFFF == 0xFFFF) by (bit_vector);
                        assert(0u32 & 0xFFFF == 0) by (bit_vector);
                        assert(!matches_at(words0, bus, slot));
                    }
                } else {
                    let vendor = vendor_device & 0xFFFF;
                    let device = (vendor_device >> 16) & 0xFFFF;
                    if vendor == VENDOR_ID && (device == DEVICE_ID_A || device == DEVICE_ID_B
                        || device == DEVICE_ID_C) {
                        let cmd = pci_read(pci, bus, slot, 0, 0x04);
                        // Bus-master enable (bit 2) and memory-space enable
                        // (bit 1), preserving the other command bits.
                        pci_write(pci, bus, slot, 0, 0x04, cmd | 0x06);

                        let bar0 = pci_read(pci, bus, slot, 0, 0x10);
                        self.base = bar0 & 0xFFFFFFF0;

                        self.print("E1000 found!".as_bytes());
                        proof {
                            assert(matches_at(words0, bus, slot));
                            assert(no_match_before(words0, bus, slot));
                            assert(cfg_idx(bus, slot, 0, 0x04) != cfg_idx(bus, slot, 0, 0x10));
                        }
                        return true;
                    }
                    proof {
                        assert(!matches_at(words0, bus, slot));
                    }
                }
                slot = slot + 1;
            }
            bus = bus + 1;
        }
        self.print("E1000 not found!".as_bytes());
        proof {
            assert(no_supported_device(words0));
        }
        false
    }

    /// Brings the controller from power-on to ready, in order and with no
    /// step skippable: mask interrupts, clear pending causes, reset, wait out
    /// the reset by a fixed iteration budget (completion is assumed, not
    /// observed), clear and mask again, build and program the RX ring with
    /// every slot offered to the device (tail on the last slot), set the MAC
    /// filter, enable the receiver, build and program the TX ring with every
    /// slot marked already-sent (tail on slot 0), set frame timing, enable
    /// the transmitter.
    pub fn init(&mut self, dev: &mut DevMem)
        requires
            old(self).inv(),
            old(dev).wf(),
        ensures
            final(self).inv(),
            final(dev).wf(),
            final(self).base == old(self).base,
            final(self).mac == old(self).mac,
            final(self).tx_tail == 0,
            final(self).rx_tail == NUM_RX_DESC - 1,
            forall|i: int| 0 <= i < NUM_RX_DESC ==> (#[trigger] final(dev).rx_descs@[i]) == rx_desc_init(i),
            forall|i: int| 0 <= i < NUM_TX_DESC ==> (#[trigger] final(dev).tx_descs@[i]) == tx_desc_init(i),
            final(dev).tx_bufs@ == old(dev).tx_bufs@,
            final(dev).rx_bufs@ == old(dev).rx_bufs@,
            final(dev).regs@[reg_idx(REG_IMS)] == 0,
            final(dev).regs@[reg_idx(REG_CTRL)] == CTRL_RESET,
            final(dev).regs@[reg_idx(REG_RDBAL)] == RX_DESC_BASE,
            final(dev).regs@[reg_idx(REG_RDBAH)] == 0,
            final(dev).regs@[reg_idx(REG_RDLEN)] == 16 * NUM_RX_DESC,
            final(dev).regs@[reg_idx(REG_RDH)] == 0,
            final(dev).regs@[reg_idx(REG_RDT)] == NUM_RX_DESC - 1,
            final(dev).regs@[reg_idx(REG_RAL)] == mac_filter_low(driver_mac()),
            final(dev).regs@[reg_idx(REG_RAH)] == mac_filter_high(driver_mac()),
            final(dev).regs@[reg_idx(REG_RCTL)] == RCTL_ENABLE,
            final(dev).regs@[reg_idx(REG_TDBAL)] == TX_DESC_BASE,
            final(dev).regs@[reg_idx(REG_TDBAH)] == 0,
            final(dev).regs@[reg_idx(REG_TDLEN)] == 16 * NUM_TX_DESC,
            final(dev).regs@[reg_idx(REG_TDH)] == 0,
            final(dev).regs@[reg_idx(REG_TDT)] == 0,
            final(dev).regs@[reg_idx(REG_TIPG)] == TIPG_INIT,
            final(dev).regs@[reg_idx(REG_TCTL)] == TCTL_ENABLE,
            forall|r: int|
                0 <= r < old(dev).regs@.len() && !init_writes_reg(r) ==> final(dev).regs@[r]
                    == old(dev).regs@[r],
    {
        self.print("Init: Disable IRQ".as_bytes());
        self.write_reg(dev, REG_IMS, 0);
        self.delay(1000);

        self.print("Init: Clear ICR".as_bytes());
        let _: u32 = self.read_reg(dev, REG_ICR);

        self.print("Init: Reset".as_bytes());
        self.write_reg(dev, REG_CTRL, CTRL_RESET);

        self.print("Init: Wait for reset".as_bytes());
        let mut w: u32 = 0;
        while w < 100000
            invariant
                w <= 100000,
            decreases 100000 - w,
        {
            self.delay(10);
            w = w + 1;
        }

        self.print("Init: Post-reset clear".as_bytes());
        let _: u32 = self.read_reg(dev, REG_ICR);
        self.write_reg(dev, REG_IMS, 0);

        self.print("Init: Setup RX descriptors".as_bytes());
        let ghost regs_rx = dev.regs@;
        let ghost txd_rx = dev.tx_descs@;
        let ghost txb0 = dev.tx_bufs@;
        let ghost rxb0 = dev.rx_bufs@;
        let mut i: usize = 0;
        while i < NUM_RX_DESC
            invariant
                i <= NUM_RX_DESC,
                dev.wf(),
                dev.regs@ == regs_rx,
                dev.tx_descs@ == txd_rx,
                dev.tx_bufs@ == txb0,
                dev.rx_bufs@ == rxb0,
                forall|j: int| 0 <= j < i ==> dev.rx_descs@[j] == rx_desc_init(j),
            decreases NUM_RX_DESC - i,
        {
            let buf_addr = (RX_BUF_BASE + (i as u32) * 2048) as u64;
            dev.rx_descs[i] = RxDesc {
                addr: buf_addr,
                length: 0,
                checksum: 0,
                status: 0,
                errors: 0,
                special: 0,
            };
            i = i + 1;
        }

        self.print("Init: Configure RX registers".as_bytes());
        self.write_reg(dev, REG_RDBAL, RX_DESC_BASE);
        self.write_reg(dev, REG_RDBAH, 0);
        self.write_reg(dev, REG_RDLEN, (NUM_RX_DESC * 16) as u32);
        self.write_reg(dev, REG_RDH, 0);
        self.write_reg(dev, REG_RDT, (NUM_RX_DESC - 1) as u32);
        self.rx_tail = NUM_RX_DESC - 1;

        self.print("Init: Set MAC address".as_bytes());
        // MAC 52:54:00:12:34:56, first four bytes packed little-endian.
        self.write_reg(dev, REG_RAL, 0x12005452);
        // Last two bytes, with the address-valid top bit set.
        self.write_reg(dev, REG_RAH, 0x80005634);

        self.print("Init: Enable receiver".as_bytes());
        self.write_reg(dev, REG_RCTL, RCTL_ENABLE);

        self.print("Init: Setup TX descriptors".as_bytes());
        let ghost regs_tx = dev.regs@;
        let ghost rxd_tx = dev.rx_descs@;
        let mut i: usize = 0;
        while i < NUM_TX_DESC
            invariant
                i <= NUM_TX_DESC,
                dev.wf(),
                dev.regs@ == regs_tx,
                dev.rx_descs@ == rxd_tx,
                dev.tx_bufs@ == txb0,
                dev.rx_bufs@ == rxb0,
                forall|j: int| 0 <= j < i ==> dev.tx_descs@[j] == tx_desc_init(j),
            decreases NUM_TX_DESC - i,
        {
            let buf_addr = (TX_BUF_BASE + (i as u32) * 2048) as u64;
            dev.tx_descs[i] = TxDesc {
                addr: buf_addr,
                length: 0,
                cso: 0,
                cmd: 0,
                status: 1,
                css: 0,
                special: 0,
            };
            i = i + 1;
        }

        self.print("Init: Configure TX registers".as_bytes());
        self.write_reg(dev, REG_TDBAL, TX_DESC_BASE);
        self.write_reg(dev, REG_TDBAH, 0);
        self.write_reg(dev, REG_TDLEN, (NUM_TX_DESC * 16) as u32);
        self.write_reg(dev, REG_TDH, 0);
        self.write_reg(dev, REG_TDT, 0);
        self.write_reg(dev, REG_TIPG, TIPG_INIT);

        self.print("Init: Enable transmitter".as_bytes());
        self.write_reg(dev, REG_TCTL, TCTL_ENABLE);

        self.tx_tail = 0;

        self.print("Completed init".as_bytes());
        proof {
            assert(mac_filter_low(driver_mac()) == 0x12005452);
            assert(mac_filter_high(driver_mac()) == 0x80005634);
        }
    }

    /// Builds the echo-request frame for `seq_no` into the current TX slot's
    /// buffer, offers the slot to the device (frame length, end-of-packet |
    /// insert-FCS | report-status command, status cleared), advances the
    /// hardware tail register and the tail cursor together, then polls the
    /// used slot's ownership bit within a fixed iteration budget. A timeout
    /// is reported on the display, not retried and not rolled back: the slot
    /// is simply reused on its next turn.
    pub fn send_ping(&mut self, dev: &mut DevMem, seq_no: u16)
        requires
            old(self).inv(),
            old(dev).wf(),
        ensures
            final(self).inv(),
            final(dev).wf(),
            final(self).base == old(self).base,
            final(self).mac == old(self).mac,
            final(self).rx_tail == old(self).rx_tail,
            final(self).tx_tail == next_tx_tail(old(self).tx_tail as int),
            final(dev).regs@ == old(dev).regs@.update(
                reg_idx(REG_TDT),
                final(self).tx_tail as u32,
            ),
            final(dev).tx_bufs@[old(self).tx_tail as int]@ == echo_frame(driver_mac(), seq_no)
                + old(dev).tx_bufs@[old(self).tx_tail as int]@.skip(FRAME_LEN as int),
            forall|i: int|
                0 <= i < NUM_TX_DESC && i != old(self).tx_tail ==> final(dev).tx_bufs@[i] == old(
                    dev,
                ).tx_bufs@[i],
            final(dev).tx_descs@ == old(dev).tx_descs@.update(
                old(self).tx_tail as int,
                (TxDesc {
                    addr: old(dev).tx_descs@[old(self).tx_tail as int].addr,
                    length: FRAME_LEN as u16,
                    cso: old(dev).tx_descs@[old(self).tx_tail as int].cso,
                    cmd: 0x0B,
                    status: 0,
                    css: old(dev).tx_descs@[old(self).tx_tail as int].css,
                    special: old(dev).tx_descs@[old(self).tx_tail as int].special,
                }),
            ),
            final(dev).rx_descs@ == old(dev).rx_descs@,
            final(dev).rx_bufs@ == old(dev).rx_bufs@,
    {
        self.print("Building ICMP packet".as_bytes());

        let tail = self.tx_tail;
        let frame = build_echo_frame(&self.mac, seq_no);

        // Write the frame into the buffer that descriptor `tail` addresses,
        // leaving the bytes past it as they were.
        let mut buf: Vec<u8> = Vec::new();
        core::mem::swap(&mut buf, &mut dev.tx_bufs[tail]);
        let ghost buf0 = buf@;
        let mut k: usize = 0;
        while k < FRAME_LEN
            invariant
                k <= FRAME_LEN,
                frame@.len() == FRAME_LEN,
                buf@.len() == buf0.len(),
                buf0.len() == BUF_SIZE,
                forall|j: int| 0 <= j < k ==> buf@[j] == frame@[j],
                forall|j: int| k <= j < buf0.len() ==> buf@[j] == buf0[j],
            decreases FRAME_LEN - k,
        {
            let b = frame[k];
            buf[k] = b;
            k = k + 1;
        }
        proof {
            assert(buf@ =~= frame@ + buf0.skip(FRAME_LEN as int));
        }
        dev.tx_bufs[tail] = buf;

        self.print("Packet build, sending".as_bytes());

        // Offer the slot to the device: frame length, end-of-packet |
        // insert-FCS | report-status, ownership bit cleared.
        let mut d = dev.tx_descs[tail];
        d.length = FRAME_LEN as u16;
        d.cmd = 0x0B;
        d.status = 0;
        dev.tx_descs[tail] = d;

        // On hardware a full memory fence stands here, so the device cannot
        // see the tail move before the descriptor and buffer writes.
        let new_tail = (tail + 1) % NUM_TX_DESC;
        self.write_reg(dev, REG_TDT, new_tail as u32);
        self.tx_tail = new_tail;

        // Poll the just-used slot for completion, a fixed budget of tries.
        let ghost regs_poll = dev.regs@;
        let ghost txd_poll = dev.tx_descs@;
        let ghost txb_poll = dev.tx_bufs@;
        let mut timeout: u32 = 0;
        loop
            invariant_except_break
                timeout <= 10000,
            invariant
                self.inv(),
                dev.wf(),
                tail < NUM_TX_DESC,
                self.base == old(self).base,
                self.mac == old(self).mac,
                self.rx_tail == old(self).rx_tail,
                self.tx_tail == next_tx_tail(old(self).tx_tail as int),
                dev.regs@ == regs_poll,
                dev.tx_descs@ == txd_poll,
                dev.tx_bufs@ == txb_poll,
                dev.rx_descs@ == old(dev).rx_descs@,
                dev.rx_bufs@ == old(dev).rx_bufs@,
            decreases 10001 - timeout,
        {
            let d2 = dev.tx_descs[tail];
            if d2.status & 1 != 0 {
                self.print("TX Complete".as_bytes());
                break ;
            }
            self.delay(100);
            timeout = timeout + 1;
            if timeout > 10000 {
                self.print("TX Timeout".as_bytes());
                break ;
            }
        }
    }

    /// Polls the single next-expected RX slot, not the whole ring. When the
    /// device owns nothing there (ownership bit clear) it reports no-match
    /// and changes nothing at all. Otherwise it classifies the slot's frame
    /// and recycles the slot either way: status and length
    /// cleared, the hardware tail register advanced to the consumed slot,
    /// and the tail cursor updated to match.
    pub fn check_reply(&mut self, dev: &mut DevMem) -> (is_reply: bool)
        requires
            old(self).inv(),
            old(dev).wf(),
        ensures
            final(self).inv(),
            final(dev).wf(),
            final(self).base == old(self).base,
            final(self).mac == old(self).mac,
            final(self).tx_tail == old(self).tx_tail,
            final(dev).tx_descs@ == old(dev).tx_descs@,
            final(dev).tx_bufs@ == old(dev).tx_bufs@,
            final(dev).rx_bufs@ == old(dev).rx_bufs@,
            ({
                let next = next_rx_slot(old(self).rx_tail as int);
                if old(dev).rx_descs@[next].status % 2 == 0 {
                    &&& !is_reply
                    &&& final(self).rx_tail == old(self).rx_tail
                    &&& final(self).vga@ == old(self).vga@
                    &&& final(dev).regs@ == old(dev).regs@
                    &&& final(dev).rx_descs@ == old(dev).rx_descs@
                } else {
                    &&& is_reply == is_echo_reply(
                        old(dev).rx_descs@[next].length as int,
                        old(dev).rx_bufs@[next]@,
                    )
                    &&& final(self).rx_tail == next
                    &&& final(dev).regs@ == old(dev).regs@.update(reg_idx(REG_RDT), next as u32)
                    &&& final(dev).rx_descs@ == old(dev).rx_descs@.update(
                        next,
                        (RxDesc {
                            addr: old(dev).rx_descs@[next].addr,
                            length: 0,
                            checksum: old(dev).rx_descs@[next].checksum,
                            status: 0,
                            errors: old(dev).rx_descs@[next].errors,
                            special: old(dev).rx_descs@[next].special,
                        }),
                    )
                }
            }),
    {
        let next = (self.rx_tail + 1) % NUM_RX_DESC;
        let d = dev.rx_descs[next];
        let st = d.status;
        proof {
            assert(st & 1 == st % 2) by (bit_vector);
        }
        if st & 1 != 0 {
            let len = d.length as usize;

            self.print("RX: Aquired packet".as_bytes());

            let is_reply = len > 34 && dev.rx_bufs[next][23] == 0x01 && dev.rx_bufs[next][34]
                == 0x00;

            if is_reply {
                self.print("RX: ICMP echo reply".as_bytes());
            } else {
                self.print("RX: Not an echo reply".as_bytes());
            }

            // Recycle the slot whether or not it matched.
            let mut d2 = dev.rx_descs[next];
            d2.status = 0;
            d2.length = 0;
            dev.rx_descs[next] = d2;

            // On hardware a full memory fence stands here, so the device
            // cannot see the tail move before the descriptor is cleared.
            self.write_reg(dev, REG_RDT, next as u32);
            self.rx_tail = next;

            return is_reply;
        }
        false
    }
}

} // verus!
