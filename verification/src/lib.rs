//! Driver core for an e1000-family gigabit Ethernet controller, used to send
//! ICMP echo requests and detect echo replies by polling — no interrupts, no
//! heap, no network stack underneath.
//!
//! The machine that the driver programs is held as explicit data so that every
//! step of the driver can be verified: PCI configuration space ([`pci`]), the
//! controller's register file, descriptor rings and packet buffers
//! ([`devmem`]), and the text display used for diagnostics ([`vga`]). On real
//! hardware each access to one of these regions is a volatile MMIO or port
//! I/O instruction; the contracts here state exactly which words each driver
//! operation reads and writes.

pub mod devmem;
pub mod e1000;
pub mod net;
pub mod pci;
pub mod vga;
