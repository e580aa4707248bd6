//! The controller-side memory that the driver programs: the 32-bit register
//! file, the TX/RX descriptor rings, and their packet-buffer pools.
//!
//! On hardware these are fixed physical regions reached by volatile MMIO; the
//! driver is verified against this explicit model of them, indexed by ring
//! slot rather than by raw pointer arithmetic.

use vstd::prelude::*;

verus! {

// Register byte offsets from the MMIO base.
pub const REG_CTRL: u32 = 0x00000;  // control
pub const REG_STATUS: u32 = 0x00008;  // status
pub const REG_ICR: u32 = 0x000C0;  // interrupt cause
pub const REG_IMS: u32 = 0x000D0;  // interrupt mask
pub const REG_RCTL: u32 = 0x00100;  // rx control
pub const REG_TCTL: u32 = 0x00400;  // tx control
pub const REG_TIPG: u32 = 0x00410;  // tx inter-packet gap
pub const REG_RDBAL: u32 = 0x02800;  // rx desc base low
pub const REG_RDBAH: u32 = 0x02804;  // rx desc base high
pub const REG_RDLEN: u32 = 0x02808;  // rx desc length
pub const REG_RDH: u32 = 0x02810;  // rx desc head
pub const REG_RDT: u32 = 0x02818;  // rx desc tail
pub const REG_TDBAL: u32 = 0x03800;  // tx desc base low
pub const REG_TDBAH: u32 = 0x03804;  // tx desc base high
pub const REG_TDLEN: u32 = 0x03808;  // tx desc length
pub const REG_TDH: u32 = 0x03810;  // tx desc head
pub const REG_TDT: u32 = 0x03818;  // tx desc tail
pub const REG_RAL: u32 = 0x05400;  // rx addr low (MAC)
pub const REG_RAH: u32 = 0x05404;  // rx addr high

// Fixed physical addresses of the four static regions.
pub const TX_DESC_BASE: u32 = 0x200000;  // tx desc mem
pub const RX_DESC_BASE: u32 = 0x201000;  // rx desc mem
pub const TX_BUF_BASE: u32 = 0x202000;  // tx buffers
pub const RX_BUF_BASE: u32 = 0x210000;  // rx buffers

pub const NUM_TX_DESC: usize = 8;  // tx ring size
pub const NUM_RX_DESC: usize = 8;  // rx ring size
pub const BUF_SIZE: usize = 2048;  // bytes per packet buffer

/// Number of 32-bit words in the modelled register file: one word per 4-byte
/// offset, through `REG_RAH`.
pub const REG_WORDS: usize = 0x1502;

/// Index of a register in the register file.
pub open spec fn reg_idx(reg: u32) -> int {
    reg as int / 4
}

/// A register offset the model covers: 4-byte aligned and within the file.
pub open spec fn valid_reg(reg: u32) -> bool {
    reg % 4 == 0 && reg_idx(reg) < REG_WORDS
}

/// A legacy transmit descriptor, 16 bytes in hardware. Bit 0 of `status` is
/// the ownership flag: hardware sets it once the frame has been sent.
#[derive(Clone, Copy, PartialEq, Eq, Structural, Debug)]
pub struct TxDesc {
    pub addr: u64,
    pub length: u16,
    pub cso: u8,
    pub cmd: u8,
    pub status: u8,
    pub css: u8,
    pub special: u16,
}

/// A receive descriptor, 16 bytes in hardware. Bit 0 of `status` is the
/// ownership flag: hardware sets it once a frame has been written.
#[derive(Clone, Copy, PartialEq, Eq, Structural, Debug)]
pub struct RxDesc {
    pub addr: u64,
    pub length: u16,
    pub checksum: u16,
    pub status: u8,
    pub errors: u8,
    pub special: u16,
}

/// A vector of `n` zero bytes.
fn zero_bytes(n: usize) -> (v: Vec<u8>)
    ensures
        v@ == Seq::new(n as nat, |i: int| 0u8),
{
    let mut v: Vec<u8> = Vec::new();
    let mut k: usize = 0;
    while k < n
        invariant
            k <= n,
            v@ =~= Seq::new(k as nat, |i: int| 0u8),
        decreases n - k,
    {
        v.push(0);
        proof {
            assert(Seq::new((k + 1) as nat, |i: int| 0u8) =~= Seq::new(k as nat, |i: int| 0u8).push(
                0u8,
            ));
        }
        k = k + 1;
    }
    proof {
        assert(v@ =~= Seq::new(n as nat, |i: int| 0u8));
    }
    v
}

/// A vector of `n` zero 32-bit words.
fn zero_words(n: usize) -> (v: Vec<u32>)
    ensures
        v@ == Seq::new(n as nat, |i: int| 0u32),
{
    let mut v: Vec<u32> = Vec::new();
    let mut k: usize = 0;
    while k < n
        invariant
            k <= n,
            v@ =~= Seq::new(k as nat, |i: int| 0u32),
        decreases n - k,
    {
        v.push(0);
        proof {
            assert(Seq::new((k + 1) as nat, |i: int| 0u32) =~= Seq::new(k as nat, |i: int| 0u32)
                .push(0u32));
        }
        k = k + 1;
    }
    proof {
        assert(v@ =~= Seq::new(n as nat, |i: int| 0u32));
    }
    v
}

/// The controller's memory: register file, both descriptor rings, and both
/// packet-buffer pools.
pub struct DevMem {
    pub regs: Vec<u32>,
    pub tx_descs: Vec<TxDesc>,
    pub rx_descs: Vec<RxDesc>,
    pub tx_bufs: Vec<Vec<u8>>,
    pub rx_bufs: Vec<Vec<u8>>,
}

/// A transmit descriptor with every field zero.
pub open spec fn zero_tx_desc() -> TxDesc {
    TxDesc { addr: 0, length: 0, cso: 0, cmd: 0, status: 0, css: 0, special: 0 }
}

/// A receive descriptor with every field zero.
pub open spec fn zero_rx_desc() -> RxDesc {
    RxDesc { addr: 0, length: 0, checksum: 0, status: 0, errors: 0, special: 0 }
}

impl DevMem {
    /// Every region has its fixed size.
    pub open spec fn wf(&self) -> bool {
        &&& self.regs@.len() == REG_WORDS
        &&& self.tx_descs@.len() == NUM_TX_DESC
        &&& self.rx_descs@.len() == NUM_RX_DESC
        &&& self.tx_bufs@.len() == NUM_TX_DESC
        &&& self.rx_bufs@.len() == NUM_RX_DESC
        &&& forall|i: int|
            0 <= i < NUM_TX_DESC ==> (#[trigger] self.tx_bufs@[i])@.len() == BUF_SIZE
        &&& forall|i: int|
            0 <= i < NUM_RX_DESC ==> (#[trigger] self.rx_bufs@[i])@.len() == BUF_SIZE
    }

    /// The model's power-on state: every register word, descriptor field and
    /// buffer byte is zero.
    pub fn new() -> (d: DevMem)
        ensures
            d.wf(),
            d.regs@ == Seq::new(REG_WORDS as nat, |i: int| 0u32),
            forall|i: int| 0 <= i < NUM_TX_DESC ==> d.tx_descs@[i] == zero_tx_desc(),
            forall|i: int| 0 <= i < NUM_RX_DESC ==> d.rx_descs@[i] == zero_rx_desc(),
            forall|i: int|
                0 <= i < NUM_TX_DESC ==> (#[trigger] d.tx_bufs@[i])@ == Seq::new(
                    BUF_SIZE as nat,
                    |j: int| 0u8,
                ),
            forall|i: int|
                0 <= i < NUM_RX_DESC ==> (#[trigger] d.rx_bufs@[i])@ == Seq::new(
                    BUF_SIZE as nat,
                    |j: int| 0u8,
                ),
    {
        let regs = zero_words(REG_WORDS);
        let mut tx_descs: Vec<TxDesc> = Vec::new();
        let mut rx_descs: Vec<RxDesc> = Vec::new();
        let mut tx_bufs: Vec<Vec<u8>> = Vec::new();
        let mut rx_bufs: Vec<Vec<u8>> = Vec::new();
        let mut k: usize = 0;
        while k < NUM_TX_DESC
            invariant
                k <= NUM_TX_DESC,
                tx_descs@.len() == k,
                tx_bufs@.len() == k,
                forall|i: int| 0 <= i < k ==> tx_descs@[i] == zero_tx_desc(),
                forall|i: int|
                    0 <= i < k ==> (#[trigger] tx_bufs@[i])@ == Seq::new(
                        BUF_SIZE as nat,
                        |j: int| 0u8,
                    ),
            decreases NUM_TX_DESC - k,
        {
            tx_descs.push(TxDesc { addr: 0, length: 0, cso: 0, cmd: 0, status: 0, css: 0, special: 0 });
            tx_bufs.push(zero_bytes(BUF_SIZE));
            k = k + 1;
        }
        let mut k: usize = 0;
        while k < NUM_RX_DESC
            invariant
                k <= NUM_RX_DESC,
                rx_descs@.len() == k,
                rx_bufs@.len() == k,
                forall|i: int| 0 <= i < k ==> rx_descs@[i] == zero_rx_desc(),
                forall|i: int|
                    0 <= i < k ==> (#[trigger] rx_bufs@[i])@ == Seq::new(
                        BUF_SIZE as nat,
                        |j: int| 0u8,
                    ),
            decreases NUM_RX_DESC - k,
        {
            rx_descs.push(RxDesc { addr: 0, length: 0, checksum: 0, status: 0, errors: 0, special: 0 });
            rx_bufs.push(zero_bytes(BUF_SIZE));
            k = k + 1;
        }
        DevMem { regs, tx_descs, rx_descs, tx_bufs, rx_bufs }
    }
}

} // verus!
