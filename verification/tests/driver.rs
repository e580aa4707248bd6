//! The driver against the modelled machine: discovery, ring initialisation,
//! transmit tail discipline, and receive polling with slot recycling.

use e1000_ping::devmem::{DevMem, BUF_SIZE, REG_CTRL, REG_IMS, REG_RAH, REG_RAL, REG_RCTL,
    REG_RDBAL, REG_RDH, REG_RDLEN, REG_RDT, REG_TCTL, REG_TDBAL, REG_TDH, REG_TDLEN, REG_TDT,
    REG_TIPG};
use e1000_ping::e1000::E1000;
use e1000_ping::pci::{pci_read, pci_write, PciSpace};

fn reg(dev: &DevMem, r: u32) -> u32 {
    dev.regs[(r / 4) as usize]
}

/// Scanning a space where every read returns all-ones terminates and reports
/// failure without mutating session state.
#[test]
fn discovery_empty_bus_fails_cleanly() {
    let mut pci = PciSpace::new();
    let mut nic = E1000::new();
    assert!(!nic.find_device(&mut pci));
    assert_eq!(nic.base, 0);
    assert_eq!(nic.tx_tail, 0);
    assert_eq!(nic.rx_tail, 0);
}

/// A planted controller is found, bus-master and memory-space get enabled in
/// its command register, and the base address comes back with the flag bits
/// masked off.
#[test]
fn discovery_finds_planted_device() {
    let mut pci = PciSpace::new();
    // Vendor/device word, command register, and BAR0 with flag bits set.
    pci_write(&mut pci, 2, 5, 0, 0x00, (0x100E << 16) | 0x8086);
    pci_write(&mut pci, 2, 5, 0, 0x04, 0x0000_0100);
    pci_write(&mut pci, 2, 5, 0, 0x10, 0xFEBC_000C);
    let mut nic = E1000::new();
    assert!(nic.find_device(&mut pci));
    assert_eq!(nic.base, 0xFEBC_0000);
    assert_eq!(pci_read(&pci, 2, 5, 0, 0x04), 0x0000_0106);
}

/// An all-zero identification word is skipped, not matched.
#[test]
fn discovery_skips_zero_id() {
    let mut pci = PciSpace::new();
    pci_write(&mut pci, 0, 0, 0, 0x00, 0);
    let mut nic = E1000::new();
    assert!(!nic.find_device(&mut pci));
}

/// A wrong device identifier is not matched even with the right vendor.
#[test]
fn discovery_rejects_unknown_device_id() {
    let mut pci = PciSpace::new();
    pci_write(&mut pci, 0, 3, 0, 0x00, (0x1234 << 16) | 0x8086);
    let mut nic = E1000::new();
    assert!(!nic.find_device(&mut pci));
}

fn ready_driver() -> (E1000, DevMem) {
    let mut nic = E1000::new();
    let mut dev = DevMem::new();
    nic.init(&mut dev);
    (nic, dev)
}

/// After init every register the sequence programs holds its fixed value,
/// both tails sit where the hardware convention puts them, and every
/// descriptor addresses its own buffer slot.
#[test]
fn init_programs_the_fixed_configuration() {
    let (nic, dev) = ready_driver();
    assert_eq!(reg(&dev, REG_IMS), 0);
    assert_eq!(reg(&dev, REG_CTRL), 0x0400_0000);
    assert_eq!(reg(&dev, REG_RDBAL), 0x0020_1000);
    assert_eq!(reg(&dev, REG_RDLEN), 128);
    assert_eq!(reg(&dev, REG_RDH), 0);
    assert_eq!(reg(&dev, REG_RDT), 7);
    assert_eq!(reg(&dev, REG_RAL), 0x1200_5452);
    assert_eq!(reg(&dev, REG_RAH), 0x8000_5634);
    assert_eq!(reg(&dev, REG_RCTL), 0x0400_801A);
    assert_eq!(reg(&dev, REG_TDBAL), 0x0020_0000);
    assert_eq!(reg(&dev, REG_TDLEN), 128);
    assert_eq!(reg(&dev, REG_TDH), 0);
    assert_eq!(reg(&dev, REG_TDT), 0);
    assert_eq!(reg(&dev, REG_TIPG), 0x0070_2008);
    assert_eq!(reg(&dev, REG_TCTL), 0x0003_F0FA);
    assert_eq!(nic.tx_tail, 0);
    assert_eq!(nic.rx_tail, 7);
    for i in 0..8 {
        assert_eq!(dev.rx_descs[i].addr, 0x0021_0000 + (i as u64) * 2048);
        assert_eq!(dev.rx_descs[i].status, 0);
        assert_eq!(dev.rx_descs[i].length, 0);
        assert_eq!(dev.tx_descs[i].addr, 0x0020_2000 + (i as u64) * 2048);
        assert_eq!(dev.tx_descs[i].status, 1);
    }
}

/// For N sends, the tail cursor after N operations is N mod the ring size,
/// and the hardware tail register always equals the new cursor.
#[test]
fn transmit_tail_counts_sends_mod_ring_size() {
    let (mut nic, mut dev) = ready_driver();
    for n in 1u16..=9 {
        nic.send_ping(&mut dev, n);
        assert_eq!(nic.tx_tail, (n as usize) % 8);
        assert_eq!(reg(&dev, REG_TDT), nic.tx_tail as u32);
    }
}

/// A send leaves the built frame in the slot's buffer and offers the
/// descriptor to the device.
#[test]
fn transmit_fills_slot_and_descriptor() {
    let (mut nic, mut dev) = ready_driver();
    nic.send_ping(&mut dev, 0x0001);
    let frame = e1000_ping::net::build_echo_frame(&[0x52, 0x54, 0x00, 0x12, 0x34, 0x56], 0x0001);
    assert_eq!(&dev.tx_bufs[0][0..98], &frame[..]);
    assert_eq!(dev.tx_bufs[0].len(), BUF_SIZE);
    assert_eq!(dev.tx_descs[0].length, 98);
    assert_eq!(dev.tx_descs[0].cmd, 0x0B);
    assert_eq!(dev.tx_descs[0].status, 0);
    // The second send uses the next slot.
    nic.send_ping(&mut dev, 0x0002);
    assert_eq!(dev.tx_descs[1].length, 98);
    assert_eq!(dev.tx_bufs[1][41], 0x02);
}

/// If the next-expected slot's ownership bit is clear, the poll reports
/// no-match and changes nothing.
#[test]
fn receive_empty_slot_changes_nothing() {
    let (mut nic, mut dev) = ready_driver();
    let line_before = nic.vga.line();
    assert!(!nic.check_reply(&mut dev));
    assert_eq!(nic.rx_tail, 7);
    assert_eq!(reg(&dev, REG_RDT), 7);
    assert_eq!(nic.vga.line(), line_before);
}

fn deliver(dev: &mut DevMem, slot: usize, len: u16, protocol: u8, icmp_type: u8) {
    dev.rx_descs[slot].status = 1;
    dev.rx_descs[slot].length = len;
    dev.rx_bufs[slot][23] = protocol;
    dev.rx_bufs[slot][34] = icmp_type;
}

/// An ICMP echo reply is recognised, and the consumed slot is recycled:
/// status and length cleared, hardware tail moved to the consumed index.
#[test]
fn receive_recognises_echo_reply_and_recycles() {
    let (mut nic, mut dev) = ready_driver();
    // After init the next expected slot is (7 + 1) % 8 == 0.
    deliver(&mut dev, 0, 98, 0x01, 0x00);
    assert!(nic.check_reply(&mut dev));
    assert_eq!(nic.rx_tail, 0);
    assert_eq!(dev.rx_descs[0].status, 0);
    assert_eq!(dev.rx_descs[0].length, 0);
    assert_eq!(reg(&dev, REG_RDT), 0);
}

/// A foreign frame is discarded but its slot is recycled all the same.
#[test]
fn receive_recycles_foreign_frame() {
    let (mut nic, mut dev) = ready_driver();
    deliver(&mut dev, 0, 98, 0x06, 0x00);
    assert!(!nic.check_reply(&mut dev));
    assert_eq!(nic.rx_tail, 0);
    assert_eq!(dev.rx_descs[0].status, 0);
    assert_eq!(dev.rx_descs[0].length, 0);
    assert_eq!(reg(&dev, REG_RDT), 0);
}

/// Length exactly 34 is never a match; 35 with the right bytes is.
#[test]
fn receive_classification_boundary() {
    let (mut nic, mut dev) = ready_driver();
    deliver(&mut dev, 0, 34, 0x01, 0x00);
    assert!(!nic.check_reply(&mut dev));
    // The slot was recycled, so the next poll looks at slot 1.
    deliver(&mut dev, 1, 35, 0x01, 0x00);
    assert!(nic.check_reply(&mut dev));
    assert_eq!(nic.rx_tail, 1);
}

/// A frame with the wrong ICMP type byte is not a reply.
#[test]
fn receive_rejects_wrong_icmp_type() {
    let (mut nic, mut dev) = ready_driver();
    deliver(&mut dev, 0, 98, 0x01, 0x08);
    assert!(!nic.check_reply(&mut dev));
}

/// Consecutive deliveries walk the ring slot by slot.
#[test]
fn receive_walks_the_ring() {
    let (mut nic, mut dev) = ready_driver();
    for slot in 0..8usize {
        deliver(&mut dev, slot, 98, 0x01, 0x00);
        assert!(nic.check_reply(&mut dev));
        assert_eq!(nic.rx_tail, slot);
        assert_eq!(reg(&dev, REG_RDT), slot as u32);
    }
}
