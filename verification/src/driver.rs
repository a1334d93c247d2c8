//! The guest-facing virtio network device, bridged onto the GEM register map
//! and descriptor rings.
//!
//! `MacbDriver` owns one register-bank view and both descriptor rings, and
//! implements the guest-visible device contract: configuration-space access,
//! per-queue doorbell notifications, interrupt status, and reset. Physical
//! addresses for DMA programming come from the `DmaLayout` handed in at
//! construction, which tabulates the translation collaborator's answers for
//! the driver's statically allocated rings and buffers.

use vstd::prelude::*;

use crate::regs::GEM_DMACFG;
use crate::regs::GEM_DMACFG_ADDR_64B;
use crate::regs::GEM_ISR;
use crate::regs::GEM_INT_GUEST;
use crate::regs::GEM_NWCTRL;
use crate::regs::GEM_NWCTRL_TXSTART;
use crate::regs::GEM_RBQPH;
use crate::regs::GEM_REG_WORDS;
use crate::regs::GEM_RXQBASE;
use crate::regs::GEM_SPADDR1HI;
use crate::regs::GEM_SPADDR1LO;
use crate::regs::GEM_TBQPH;
use crate::regs::GEM_TXQBASE;
use crate::regs::RegisterBank;
use crate::ring::BUFFER_LEN;
use crate::ring::DESC_0_RX_ADDR_MASK;
use crate::ring::DESC_0_RX_OWNERSHIP;
use crate::ring::DESC_0_RX_WRAP;
use crate::ring::DESC_1_TX_LAST;
use crate::ring::DESC_1_TX_WRAP;
use crate::ring::DESC_1_USED;
use crate::ring::Descriptor;
use crate::ring::RING_LEN;
use crate::ring::initialize_rx_ring;
use crate::ring::initialize_tx_ring;
use crate::ring::lemma_rx_desc_addr_word_fields;
use crate::ring::lemma_tx_queueable_split;
use crate::ring::ring_slot;
use crate::ring::rx_desc_addr_word;
use crate::ring::tx_desc_frame_word1;
use crate::ring::tx_desc_init_word1;
use crate::ring::tx_desc_sw_owned;
use crate::ring::tx_queueable_from;

verus! {

/// Virtio device type identifier: network device.
pub const DEVICE_ID: u32 = 1;

/// Feature bit: the device reports a MAC address in configuration space.
pub const VIRTIO_NET_F_MAC: u64 = 1 << 5;

/// Feature bit: the device reports an MTU in configuration space.
pub const VIRTIO_NET_F_MTU: u64 = 1 << 3;

/// The advertised feature bitmask: MAC-address and MTU negotiation only.
pub const FEATURES: u64 = VIRTIO_NET_F_MAC | VIRTIO_NET_F_MTU;

/// Exactly two virtqueues: one receive, one transmit.
pub const QUEUE_NUM_MAX: u32 = 2;

/// Index of the receive virtqueue.
pub const RECEIVE_QUEUE: u32 = 0;

/// Index of the transmit virtqueue.
pub const TRANSMIT_QUEUE: u32 = 1;

/// The MTU reported at configuration-space offsets 10 and 11, little-endian;
/// the packet buffers are sized to it.
pub const VIRTIO_MTU: u16 = 2048;

/// Why the device model refused an operation.
#[derive(Clone, Copy, PartialEq, Eq, Structural, Debug)]
pub enum DriverError {
    /// A transmit frame does not fit one packet buffer.
    FrameTooLong,
    /// The queue already holds as many entries as the ring has descriptors.
    QueueFull,
}

/// The physical addresses hardware must use for DMA: the answers of the
/// address-translation collaborator for the two rings and for each packet
/// buffer. Buffer addresses fit the descriptor's 32-bit address word and
/// keep its two repurposed low flag bits clear.
pub struct DmaLayout {
    /// Physical address of the receive ring's base.
    pub rx_ring_base: u64,
    /// Physical address of the transmit ring's base.
    pub tx_ring_base: u64,
    /// Physical address of each receive packet buffer, by ring index.
    pub rx_buffer_addrs: Vec<u64>,
    /// Physical address of each transmit packet buffer, by ring index.
    pub tx_buffer_addrs: Vec<u64>,
}

impl DmaLayout {
    /// One address per descriptor, each 4-byte aligned and representable in
    /// the descriptor's 32-bit address word.
    pub open spec fn wf(self) -> bool {
        &&& self.rx_buffer_addrs@.len() == RING_LEN
        &&& self.tx_buffer_addrs@.len() == RING_LEN
        &&& forall|i: int|
            0 <= i < RING_LEN ==> #[trigger] self.rx_buffer_addrs@[i] % 4 == 0
                && self.rx_buffer_addrs@[i] <= 0xFFFFFFFF
        &&& forall|i: int|
            0 <= i < RING_LEN ==> #[trigger] self.tx_buffer_addrs@[i] % 4 == 0
                && self.tx_buffer_addrs@[i] <= 0xFFFFFFFF
    }
}

/// What a configuration-space read returns: offsets 0 to 5 are the bytes of
/// the stored MAC address, offsets 10 and 11 the little-endian bytes of the
/// MTU, and every other offset is defined to be zero.
pub open spec fn config_read_byte(mac: Seq<u8>, offset: u64) -> u8
    recommends
        mac.len() == 6,
{
    if offset <= 5 {
        mac[offset as int]
    } else if offset == 10 {
        (VIRTIO_MTU % 256) as u8
    } else if offset == 11 {
        (VIRTIO_MTU / 256) as u8
    } else {
        0u8
    }
}

/// What a configuration-space write leaves of the stored MAC address:
/// offsets 0 to 5 update the corresponding byte; every other offset is a
/// no-op.
pub open spec fn mac_after_config_write(mac: Seq<u8>, offset: u64, value: u8) -> Seq<u8> {
    if offset <= 5 {
        mac.update(offset as int, value)
    } else {
        mac
    }
}

/// The value of the specific-address 1 bottom register for a MAC address:
/// its first four bytes, little-endian.
pub open spec fn mac_addr_low_word(mac: Seq<u8>) -> u32
    recommends
        mac.len() == 6,
{
    (mac[0] as u32) | ((mac[1] as u32) << 8) | ((mac[2] as u32) << 16) | ((mac[3] as u32) << 24)
}

/// The value of the specific-address 1 top register for a MAC address: its
/// last two bytes, little-endian, in the register's low half.
pub open spec fn mac_addr_high_word(mac: Seq<u8>) -> u32
    recommends
        mac.len() == 6,
{
    (mac[4] as u32) | ((mac[5] as u32) << 8)
}

/// The descriptor `j` slots past the transmit cursor was handed to
/// hardware for pending frame `j`: its address word is the slot's buffer
/// address, its length/control word carries the frame length, the
/// last-buffer flag and the used bit cleared (with the wrap marker on the
/// ring's final slot), and the slot's buffer begins with the frame's bytes,
/// its tail unchanged.
pub open spec fn tx_slot_filled(pre: MacbDriver, post: MacbDriver, j: int) -> bool
    recommends
        pre.wf(),
        0 <= j < pre.pending_frames().len(),
{
    let idx = ring_slot(pre.tx_cursor() as int, j);
    let frame = pre.pending_frames()[j]@;
    &&& post.tx_descs()[idx].word0 == pre.dma().tx_buffer_addrs@[idx] as u32
    &&& post.tx_descs()[idx].word1 == tx_desc_frame_word1(frame.len() as u32, idx == RING_LEN - 1)
    &&& post.tx_descs()[idx].word2 == pre.tx_descs()[idx].word2
    &&& post.tx_descs()[idx].word3 == pre.tx_descs()[idx].word3
    &&& post.tx_bufs()[idx]@ == frame + pre.tx_bufs()[idx]@.skip(frame.len() as int)
}

/// The descriptor `j` slots past the transmit cursor and its buffer are as
/// they were.
pub open spec fn tx_slot_untouched(pre: MacbDriver, post: MacbDriver, j: int) -> bool {
    let idx = ring_slot(pre.tx_cursor() as int, j);
    &&& post.tx_descs()[idx] == pre.tx_descs()[idx]
    &&& post.tx_bufs()[idx] == pre.tx_bufs()[idx]
}

/// The descriptor `j` slots past the receive cursor was re-armed for
/// hardware: its address word is rebound to the slot's buffer address with
/// the ownership bit granted to hardware (and the wrap marker on the
/// ring's final slot), and its status/length word is cleared.
pub open spec fn rx_slot_rearmed(pre: MacbDriver, post: MacbDriver, j: int) -> bool
    recommends
        pre.wf(),
        0 <= j < pre.rx_supplied_count(),
{
    let idx = ring_slot(pre.rx_cursor() as int, j);
    &&& post.rx_descs()[idx].word0 == rx_desc_addr_word(
        pre.dma().rx_buffer_addrs@[idx],
        idx == RING_LEN - 1,
    )
    &&& post.rx_descs()[idx].word1 == 0u32
    &&& post.rx_descs()[idx].word2 == pre.rx_descs()[idx].word2
    &&& post.rx_descs()[idx].word3 == pre.rx_descs()[idx].word3
}

/// The descriptor `j` slots past the receive cursor is as it was.
pub open spec fn rx_slot_untouched(pre: MacbDriver, post: MacbDriver, j: int) -> bool {
    let idx = ring_slot(pre.rx_cursor() as int, j);
    post.rx_descs()[idx] == pre.rx_descs()[idx]
}

/// What a transmit doorbell does. With `k` the number of placeable frames
/// — the pending frames, cut short at the first descriptor hardware still
/// owns — the first `k` pending frames move into the `k` slots at the
/// cursor, the cursor advances by `k`, those frames leave the pending
/// queue, and when any frame was placed the transmit-start control bit is
/// strobed by a single write. Everything else is untouched.
pub open spec fn tx_doorbell_post(pre: MacbDriver, post: MacbDriver) -> bool {
    let k = pre.tx_doorbell_count();
    &&& post.pending_frames() == pre.pending_frames().skip(k)
    &&& post.tx_cursor() as int == ring_slot(pre.tx_cursor() as int, k)
    &&& forall|j: int| 0 <= j < k ==> #[trigger] tx_slot_filled(pre, post, j)
    &&& forall|j: int| k <= j < RING_LEN ==> #[trigger] tx_slot_untouched(pre, post, j)
    &&& (k > 0 ==> post.regs() == pre.regs().update(
        GEM_NWCTRL as int,
        pre.regs()[GEM_NWCTRL as int] | GEM_NWCTRL_TXSTART,
    ))
    &&& (k == 0 ==> post.regs() == pre.regs())
    &&& post.mac_bytes() == pre.mac_bytes()
    &&& post.dma() == pre.dma()
    &&& post.rx_descs() == pre.rx_descs()
    &&& post.rx_bufs() == pre.rx_bufs()
    &&& post.rx_supplied_count() == pre.rx_supplied_count()
    &&& post.rx_cursor() == pre.rx_cursor()
}

/// What a receive doorbell does: one descriptor per buffer the guest has
/// supplied is re-armed for hardware, walking the ring from the receive
/// cursor, which advances past them; the supplied count restarts at zero.
/// Everything else, the registers included, is untouched.
pub open spec fn rx_doorbell_post(pre: MacbDriver, post: MacbDriver) -> bool {
    let n = pre.rx_supplied_count() as int;
    &&& forall|j: int| 0 <= j < n ==> #[trigger] rx_slot_rearmed(pre, post, j)
    &&& forall|j: int| n <= j < RING_LEN ==> #[trigger] rx_slot_untouched(pre, post, j)
    &&& post.rx_cursor() as int == ring_slot(pre.rx_cursor() as int, n)
    &&& post.rx_supplied_count() == 0
    &&& post.regs() == pre.regs()
    &&& post.mac_bytes() == pre.mac_bytes()
    &&& post.dma() == pre.dma()
    &&& post.tx_descs() == pre.tx_descs()
    &&& post.rx_bufs() == pre.rx_bufs()
    &&& post.tx_bufs() == pre.tx_bufs()
    &&& post.pending_frames() == pre.pending_frames()
    &&& post.tx_cursor() == pre.tx_cursor()
}

/// Driver for the Cadence GEM Ethernet device.
pub struct MacbDriver {
    control_registers: RegisterBank,
    mac: Vec<u8>,
    rx_buffers: Vec<Vec<u8>>,
    rx_queue: Vec<Descriptor>,
    tx_buffers: Vec<Vec<u8>>,
    tx_queue: Vec<Descriptor>,
    layout: DmaLayout,
    /// Guest frames handed over for transmission and not yet placed in
    /// descriptors.
    pending_tx: Vec<Vec<u8>>,
    /// Receive buffers the guest has supplied since the last receive
    /// doorbell.
    rx_supplied: usize,
    /// Ring cursor: the next transmit descriptor to hand to hardware.
    tx_next: usize,
    /// Ring cursor: the next receive descriptor to re-arm for hardware.
    rx_next: usize,
}

impl MacbDriver {
    /// The register bank's words, by word index.
    pub closed spec fn regs(self) -> Seq<u32> {
        self.control_registers@
    }

    /// The stored MAC address, as its six bytes.
    pub closed spec fn mac_bytes(self) -> Seq<u8> {
        self.mac@
    }

    /// The receive descriptor ring.
    pub closed spec fn rx_descs(self) -> Seq<Descriptor> {
        self.rx_queue@
    }

    /// The transmit descriptor ring.
    pub closed spec fn tx_descs(self) -> Seq<Descriptor> {
        self.tx_queue@
    }

    /// The receive packet buffers, by ring index.
    pub closed spec fn rx_bufs(self) -> Seq<Vec<u8>> {
        self.rx_buffers@
    }

    /// The transmit packet buffers, by ring index.
    pub closed spec fn tx_bufs(self) -> Seq<Vec<u8>> {
        self.tx_buffers@
    }

    /// The physical-address table the driver was constructed with.
    pub closed spec fn dma(self) -> DmaLayout {
        self.layout
    }

    /// The guest frames waiting for the next transmit doorbell.
    pub closed spec fn pending_frames(self) -> Seq<Vec<u8>> {
        self.pending_tx@
    }

    /// How many receive buffers the guest has supplied since the last
    /// receive doorbell.
    pub closed spec fn rx_supplied_count(self) -> usize {
        self.rx_supplied
    }

    /// The next transmit descriptor the driver will hand to hardware.
    pub closed spec fn tx_cursor(self) -> usize {
        self.tx_next
    }

    /// The next receive descriptor the driver will re-arm for hardware.
    pub closed spec fn rx_cursor(self) -> usize {
        self.rx_next
    }

    /// Well-formedness: the register bank spans the full register map, the
    /// MAC has six bytes, both rings have `RING_LEN` descriptors paired with
    /// `BUFFER_LEN`-byte buffers, the address table is sound, the cursors
    /// stay inside the rings, and the guest cannot have supplied more than
    /// one ring's worth of work.
    pub open spec fn wf(self) -> bool {
        &&& self.regs().len() == GEM_REG_WORDS
        &&& self.mac_bytes().len() == 6
        &&& self.rx_descs().len() == RING_LEN
        &&& self.tx_descs().len() == RING_LEN
        &&& self.rx_bufs().len() == RING_LEN
        &&& self.tx_bufs().len() == RING_LEN
        &&& forall|i: int| 0 <= i < RING_LEN ==> (#[trigger] self.rx_bufs()[i])@.len() == BUFFER_LEN
        &&& forall|i: int| 0 <= i < RING_LEN ==> (#[trigger] self.tx_bufs()[i])@.len() == BUFFER_LEN
        &&& self.dma().wf()
        &&& self.pending_frames().len() <= RING_LEN
        &&& forall|i: int|
            0 <= i < self.pending_frames().len() ==> (#[trigger] self.pending_frames()[i])@.len()
                <= BUFFER_LEN
        &&& self.rx_supplied_count() <= RING_LEN
        &&& self.tx_cursor() < RING_LEN
        &&& self.rx_cursor() < RING_LEN
    }

    /// How many frames the next transmit doorbell will place: the pending
    /// frames, cut short at the first descriptor hardware still owns.
    pub open spec fn tx_doorbell_count(self) -> int {
        tx_queueable_from(
            self.tx_descs(),
            self.tx_cursor() as int,
            0,
            self.pending_frames().len() as int,
        )
    }

    /// The hardware-visible state a queue-intake operation leaves untouched:
    /// registers, MAC, rings, buffers, cursors and the address table.
    pub open spec fn same_hardware_state(self, other: MacbDriver) -> bool {
        &&& self.regs() == other.regs()
        &&& self.mac_bytes() == other.mac_bytes()
        &&& self.rx_descs() == other.rx_descs()
        &&& self.tx_descs() == other.tx_descs()
        &&& self.rx_bufs() == other.rx_bufs()
        &&& self.tx_bufs() == other.tx_bufs()
        &&& self.dma() == other.dma()
        &&& self.tx_cursor() == other.tx_cursor()
        &&& self.rx_cursor() == other.rx_cursor()
    }

    /// The parts of the driver no configuration-space or interrupt operation
    /// touches: rings, buffers, queue bookkeeping and the address table.
    pub open spec fn same_queues(self, other: MacbDriver) -> bool {
        &&& self.rx_descs() == other.rx_descs()
        &&& self.tx_descs() == other.tx_descs()
        &&& self.rx_bufs() == other.rx_bufs()
        &&& self.tx_bufs() == other.tx_bufs()
        &&& self.dma() == other.dma()
        &&& self.pending_frames() == other.pending_frames()
        &&& self.rx_supplied_count() == other.rx_supplied_count()
        &&& self.tx_cursor() == other.tx_cursor()
        &&& self.rx_cursor() == other.rx_cursor()
    }

    /// Constructs the driver at device attachment: zeroed MAC, buffers and
    /// descriptors, the given register-bank view, and the given physical
    /// address table.
    pub fn new(control_registers: RegisterBank, layout: DmaLayout) -> (r: MacbDriver)
        requires
            control_registers.wf(),
            layout.wf(),
        ensures
            r.wf(),
            r.regs() == control_registers@,
            r.dma() == layout,
            forall|i: int| 0 <= i < 6 ==> r.mac_bytes()[i] == 0,
            forall|i: int|
                0 <= i < RING_LEN ==> r.rx_descs()[i] == (Descriptor {
                    word0: 0u32,
                    word1: 0u32,
                    word2: 0u32,
                    word3: 0u32,
                }),
            forall|i: int|
                0 <= i < RING_LEN ==> r.tx_descs()[i] == (Descriptor {
                    word0: 0u32,
                    word1: 0u32,
                    word2: 0u32,
                    word3: 0u32,
                }),
            forall|i: int, j: int|
                0 <= i < RING_LEN && 0 <= j < BUFFER_LEN ==> r.rx_bufs()[i]@[j] == 0
                    && r.tx_bufs()[i]@[j] == 0,
            r.pending_frames().len() == 0,
            r.rx_supplied_count() == 0,
            r.tx_cursor() == 0,
            r.rx_cursor() == 0,
    {
        MacbDriver {
            control_registers,
            mac: zeroed_bytes(6),
            rx_buffers: zeroed_buffer_pool(),
            rx_queue: zeroed_ring(),
            tx_buffers: zeroed_buffer_pool(),
            tx_queue: zeroed_ring(),
            layout,
            pending_tx: Vec::new(),
            rx_supplied: 0,
            tx_next: 0,
            rx_next: 0,
        }
    }

    /// Configuration-space read of one byte: offsets 0 to 5 return the
    /// stored MAC address byte, offsets 10 and 11 the little-endian MTU
    /// bytes, and all other offsets zero. Out-of-range offsets are not an
    /// error: they are defined to read as zero.
    pub fn read_config_u8(&mut self, offset: u64) -> (value: u8)
        requires
            old(self).wf(),
        ensures
            *final(self) == *old(self),
            value == config_read_byte(old(self).mac_bytes(), offset),
    {
        if offset <= 5 {
            self.mac[offset as usize]
        } else if offset == 10 {
            (VIRTIO_MTU % 256) as u8
        } else if offset == 11 {
            (VIRTIO_MTU / 256) as u8
        } else {
            0
        }
    }

    /// Configuration-space write of one byte: offsets 0 to 5 update the
    /// stored MAC address byte and propagate the full address to the
    /// hardware specific-address 1 register pair (bottom register first, so
    /// the hardware re-arms the unicast filter on the top write); all other
    /// offsets are no-ops.
    pub fn write_config_u8(&mut self, offset: u64, value: u8)
        requires
            old(self).wf(),
        ensures
            final(self).wf(),
            final(self).mac_bytes() == mac_after_config_write(
                old(self).mac_bytes(),
                offset,
                value,
            ),
            old(self).same_queues(*final(self)),
            offset <= 5 ==> final(self).regs() == old(self).regs().update(
                GEM_SPADDR1LO as int,
                mac_addr_low_word(final(self).mac_bytes()),
            ).update(GEM_SPADDR1HI as int, mac_addr_high_word(final(self).mac_bytes())),
            offset > 5 ==> *final(self) == *old(self),
    {
        if offset <= 5 {
            self.mac.set(offset as usize, value);
            let low: u32 = (self.mac[0] as u32) | ((self.mac[1] as u32) << 8) | ((self.mac[2]
                as u32) << 16) | ((self.mac[3] as u32) << 24);
            let high: u32 = (self.mac[4] as u32) | ((self.mac[5] as u32) << 8);
            self.control_registers.write(GEM_SPADDR1LO, low);
            self.control_registers.write(GEM_SPADDR1HI, high);
        }
    }

    /// Virtio device reset. Clears the DMA configuration register and sets
    /// its 64-bit-addressing capability bit; programs the receive and
    /// transmit queue base register pairs with each ring's own physical
    /// base; reinitializes every receive descriptor with its buffer's
    /// physical address, ownership granted to hardware and the wrap marker
    /// on the final descriptor; and reinitializes the transmit ring with
    /// ownership held by software. Buffers, rings and the stored MAC are
    /// not reallocated — only their hardware-visible state restarts.
    pub fn reset(&mut self)
        requires
            old(self).wf(),
        ensures
            final(self).wf(),
            final(self).regs()[GEM_DMACFG as int] == GEM_DMACFG_ADDR_64B,
            final(self).regs()[GEM_RXQBASE as int] == old(self).dma().rx_ring_base as u32,
            final(self).regs()[GEM_RBQPH as int] == (old(self).dma().rx_ring_base >> 32) as u32,
            final(self).regs()[GEM_TXQBASE as int] == old(self).dma().tx_ring_base as u32,
            final(self).regs()[GEM_TBQPH as int] == (old(self).dma().tx_ring_base >> 32) as u32,
            forall|i: int|
                0 <= i < GEM_REG_WORDS && i != GEM_DMACFG && i != GEM_RXQBASE && i != GEM_RBQPH
                    && i != GEM_TXQBASE && i != GEM_TBQPH ==> final(self).regs()[i] == old(
                    self,
                ).regs()[i],
            forall|i: int|
                0 <= i < RING_LEN ==> final(self).rx_descs()[i] == (Descriptor {
                    word0: rx_desc_addr_word(
                        old(self).dma().rx_buffer_addrs@[i],
                        i == RING_LEN - 1,
                    ),
                    word1: 0u32,
                    word2: 0u32,
                    word3: 0u32,
                }),
            forall|i: int|
                0 <= i < RING_LEN ==> (#[trigger] final(self).rx_descs()[i]).word0
                    & DESC_0_RX_OWNERSHIP == 0,
            forall|i: int|
                0 <= i < RING_LEN ==> (#[trigger] final(self).rx_descs()[i]).word0
                    & DESC_0_RX_WRAP == (if i == RING_LEN - 1 {
                    DESC_0_RX_WRAP
                } else {
                    0u32
                }),
            forall|i: int|
                0 <= i < RING_LEN ==> (#[trigger] final(self).rx_descs()[i]).word0
                    & DESC_0_RX_ADDR_MASK == old(self).dma().rx_buffer_addrs@[i],
            forall|i: int|
                0 <= i < RING_LEN ==> final(self).tx_descs()[i] == (Descriptor {
                    word0: old(self).dma().tx_buffer_addrs@[i] as u32,
                    word1: tx_desc_init_word1(i == RING_LEN - 1),
                    word2: 0u32,
                    word3: 0u32,
                }),
            final(self).mac_bytes() == old(self).mac_bytes(),
            final(self).dma() == old(self).dma(),
            final(self).rx_bufs() == old(self).rx_bufs(),
            final(self).tx_bufs() == old(self).tx_bufs(),
            final(self).pending_frames().len() == 0,
            final(self).rx_supplied_count() == 0,
            final(self).tx_cursor() == 0,
            final(self).rx_cursor() == 0,
    {
        // Clear the DMA configuration register, then set the
        // 64-bit-addressing capability bit.
        self.control_registers.write(GEM_DMACFG, 0);
        let dmacfg: u32 = self.control_registers.read(GEM_DMACFG);
        self.control_registers.write(GEM_DMACFG, dmacfg | GEM_DMACFG_ADDR_64B);
        proof {
            assert(0u32 | GEM_DMACFG_ADDR_64B == GEM_DMACFG_ADDR_64B) by (bit_vector);
        }

        // Program the receive ring's physical base, low word then high word.
        let rx_ptr: u64 = self.layout.rx_ring_base;
        self.control_registers.write(GEM_RXQBASE, rx_ptr as u32);
        self.control_registers.write(GEM_RBQPH, (rx_ptr >> 32) as u32);

        // Program the transmit ring's own physical base — not the receive
        // ring's, which would leave both queue base registers aliased.
        let tx_ptr: u64 = self.layout.tx_ring_base;
        self.control_registers.write(GEM_TXQBASE, tx_ptr as u32);
        self.control_registers.write(GEM_TBQPH, (tx_ptr >> 32) as u32);

        // Rebind both rings' descriptors to their buffers from scratch.
        initialize_rx_ring(&mut self.rx_queue, &self.layout.rx_buffer_addrs);
        initialize_tx_ring(&mut self.tx_queue, &self.layout.tx_buffer_addrs);

        self.pending_tx = Vec::new();
        self.rx_supplied = 0;
        self.tx_next = 0;
        self.rx_next = 0;

        proof {
            assert forall|i: int| 0 <= i < RING_LEN implies (#[trigger] self.rx_queue@[i]).word0
                & DESC_0_RX_OWNERSHIP == 0 && self.rx_queue@[i].word0 & DESC_0_RX_WRAP == (
            if i == RING_LEN - 1 {
                DESC_0_RX_WRAP
            } else {
                0u32
            }) && self.rx_queue@[i].word0 & DESC_0_RX_ADDR_MASK
                == self.layout.rx_buffer_addrs@[i] by {
                lemma_rx_desc_addr_word_fields(self.layout.rx_buffer_addrs@[i], i == RING_LEN - 1);
            }
        }
    }

    /// Interrupt query: reads the hardware interrupt-status register and
    /// reports whether a guest-relevant condition — transmit complete,
    /// receive complete, or a queue-used condition — is pending, clearing
    /// exactly the consumed bits and leaving every other status bit for its
    /// own consumer.
    pub fn interrupt(&mut self) -> (pending: bool)
        requires
            old(self).wf(),
        ensures
            final(self).wf(),
            pending == ((old(self).regs()[GEM_ISR as int] & GEM_INT_GUEST) != 0),
            final(self).regs() == old(self).regs().update(
                GEM_ISR as int,
                old(self).regs()[GEM_ISR as int] & !GEM_INT_GUEST,
            ),
            final(self).mac_bytes() == old(self).mac_bytes(),
            old(self).same_queues(*final(self)),
    {
        let isr: u32 = self.control_registers.read(GEM_ISR);
        let pending: bool = (isr & GEM_INT_GUEST) != 0;
        self.control_registers.write(GEM_ISR, isr & !GEM_INT_GUEST);
        pending
    }

    /// The transport layer hands over one frame the guest has placed in the
    /// transmit virtqueue; the next transmit doorbell moves it into a
    /// hardware descriptor. A frame longer than one packet buffer is
    /// refused, as is a frame beyond one ring's worth of pending work.
    pub fn supply_transmit_frame(&mut self, frame: Vec<u8>) -> (r: Result<(), DriverError>)
        requires
            old(self).wf(),
        ensures
            final(self).wf(),
            frame@.len() > BUFFER_LEN ==> r == Err::<(), DriverError>(DriverError::FrameTooLong)
                && *final(self) == *old(self),
            frame@.len() <= BUFFER_LEN && old(self).pending_frames().len() >= RING_LEN ==> r
                == Err::<(), DriverError>(DriverError::QueueFull) && *final(self) == *old(self),
            frame@.len() <= BUFFER_LEN && old(self).pending_frames().len() < RING_LEN ==> r
                == Ok::<(), DriverError>(()) && old(self).same_hardware_state(*final(self))
                && final(self).pending_frames() == old(self).pending_frames().push(frame)
                && final(self).rx_supplied_count() == old(self).rx_supplied_count(),
    {
        if frame.len() > BUFFER_LEN {
            Err(DriverError::FrameTooLong)
        } else if self.pending_tx.len() >= RING_LEN {
            Err(DriverError::QueueFull)
        } else {
            self.pending_tx.push(frame);
            Ok(())
        }
    }

    /// The transport layer reports one empty buffer the guest has placed in
    /// the receive virtqueue; the next receive doorbell re-arms one more
    /// receive descriptor for hardware. More buffers than the ring has
    /// descriptors are refused.
    pub fn supply_receive_buffer(&mut self) -> (r: Result<(), DriverError>)
        requires
            old(self).wf(),
        ensures
            final(self).wf(),
            old(self).rx_supplied_count() >= RING_LEN ==> r == Err::<(), DriverError>(
                DriverError::QueueFull,
            ) && *final(self) == *old(self),
            old(self).rx_supplied_count() < RING_LEN ==> r == Ok::<(), DriverError>(())
                && old(self).same_hardware_state(*final(self))
                && final(self).rx_supplied_count() == old(self).rx_supplied_count() + 1
                && final(self).pending_frames() == old(self).pending_frames(),
    {
        if self.rx_supplied >= RING_LEN {
            Err(DriverError::QueueFull)
        } else {
            self.rx_supplied = self.rx_supplied + 1;
            Ok(())
        }
    }

    /// Doorbell: the guest has placed new buffers in the virtqueue with the
    /// given index. The transmit doorbell moves the newly available frames
    /// into hardware descriptors and strobes transmit start; the receive
    /// doorbell re-arms as many receive descriptors as the guest has
    /// supplied buffers. A doorbell for any other queue index is a no-op —
    /// the device has exactly two queues.
    pub fn doorbell(&mut self, queue: u32)
        requires
            old(self).wf(),
        ensures
            final(self).wf(),
            queue == TRANSMIT_QUEUE ==> tx_doorbell_post(*old(self), *final(self)),
            queue == RECEIVE_QUEUE ==> rx_doorbell_post(*old(self), *final(self)),
            queue != RECEIVE_QUEUE && queue != TRANSMIT_QUEUE ==> *final(self) == *old(self),
    {
        if queue == TRANSMIT_QUEUE {
            self.transmit_doorbell();
        } else if queue == RECEIVE_QUEUE {
            self.receive_doorbell();
        }
    }

    /// Walks the pending guest frames into software-owned transmit
    /// descriptors from the cursor on, stopping at the first descriptor
    /// hardware still owns, and strobes the transmit-start control bit
    /// when at least one frame was placed.
    fn transmit_doorbell(&mut self)
        requires
            old(self).wf(),
        ensures
            final(self).wf(),
            tx_doorbell_post(*old(self), *final(self)),
    {
        let mut queued: usize = 0;
        while self.pending_tx.len() > 0 && (self.tx_queue[self.tx_next].word1 & DESC_1_USED) != 0
            invariant
                self.wf(),
                old(self).wf(),
                queued <= old(self).pending_frames().len(),
                self.pending_tx@ == old(self).pending_frames().skip(queued as int),
                self.tx_next as int == ring_slot(old(self).tx_cursor() as int, queued as int),
                forall|j: int| 0 <= j < queued ==> #[trigger] tx_slot_filled(*old(self), *self, j),
                forall|j: int|
                    queued <= j < RING_LEN ==> #[trigger] tx_slot_untouched(*old(self), *self, j),
                forall|j: int|
                    0 <= j < queued ==> tx_desc_sw_owned(
                        old(self).tx_descs()[#[trigger] ring_slot(
                            old(self).tx_cursor() as int,
                            j,
                        )],
                    ),
                self.regs() == old(self).regs(),
                self.mac_bytes() == old(self).mac_bytes(),
                self.rx_descs() == old(self).rx_descs(),
                self.rx_bufs() == old(self).rx_bufs(),
                self.dma() == old(self).dma(),
                self.rx_supplied_count() == old(self).rx_supplied_count(),
                self.rx_cursor() == old(self).rx_cursor(),
            decreases self.pending_tx@.len(),
        {
            let idx: usize = self.tx_next;
            let ghost entry = *self;
            proof {
                assert(tx_slot_untouched(*old(self), entry, queued as int));
                assert(self.tx_queue@[idx as int] == old(self).tx_descs()[ring_slot(
                    old(self).tx_cursor() as int,
                    queued as int,
                )]);
                assert(entry.pending_frames()[0]@.len() <= BUFFER_LEN);
                assert(entry.tx_bufs()[idx as int]@.len() == BUFFER_LEN);
            }
            let frame: Vec<u8> = self.pending_tx.remove(0);
            let filled: Vec<u8> = fill_buffer(&self.tx_buffers[idx], &frame);
            self.tx_buffers.set(idx, filled);
            let d: Descriptor = self.tx_queue[idx];
            let addr: u64 = self.layout.tx_buffer_addrs[idx];
            let word1: u32 = if idx == RING_LEN - 1 {
                (frame.len() as u32) | DESC_1_TX_LAST | DESC_1_TX_WRAP
            } else {
                (frame.len() as u32) | DESC_1_TX_LAST
            };
            self.tx_queue.set(
                idx,
                Descriptor { word0: addr as u32, word1, word2: d.word2, word3: d.word3 },
            );
            self.tx_next = if idx + 1 < RING_LEN {
                idx + 1
            } else {
                0
            };
            queued = queued + 1;
            proof {
                let pre = *old(self);
                let c0 = pre.tx_cursor() as int;
                let q0 = queued as int - 1;
                assert(frame == pre.pending_frames()[q0]);
                assert(pre.pending_frames().skip(q0).remove(0) =~= pre.pending_frames().skip(
                    q0 + 1,
                ));
                assert(tx_desc_sw_owned(pre.tx_descs()[ring_slot(c0, q0)]));
                assert forall|j: int| 0 <= j < queued implies #[trigger] tx_slot_filled(
                    pre,
                    *self,
                    j,
                ) by {
                    if j < q0 {
                        assert(tx_slot_filled(pre, entry, j));
                        assert(ring_slot(c0, j) != ring_slot(c0, q0));
                    } else {
                        assert(tx_slot_untouched(pre, entry, q0));
                    }
                }
                assert forall|j: int| queued <= j < RING_LEN implies #[trigger] tx_slot_untouched(
                    pre,
                    *self,
                    j,
                ) by {
                    assert(tx_slot_untouched(pre, entry, j));
                    assert(ring_slot(c0, j) != ring_slot(c0, q0));
                }
            }
        }
        proof {
            let pre = *old(self);
            let c0 = pre.tx_cursor() as int;
            let len0 = pre.pending_frames().len() as int;
            if (queued as int) < len0 {
                // hardware still owns the next slot: the placeable run ends here
                assert(tx_slot_untouched(pre, *self, queued as int));
                assert(!tx_desc_sw_owned(pre.tx_descs()[ring_slot(c0, queued as int)]));
                assert(tx_queueable_from(pre.tx_descs(), c0, queued as int, len0) == 0);
            } else {
                assert(tx_queueable_from(pre.tx_descs(), c0, queued as int, len0) == 0);
            }
            lemma_tx_queueable_split(pre.tx_descs(), c0, 0, queued as int, len0);
            assert(pre.tx_doorbell_count() == queued);
        }
        let ghost drained = *self;
        if queued > 0 {
            let ctrl: u32 = self.control_registers.read(GEM_NWCTRL);
            self.control_registers.write(GEM_NWCTRL, ctrl | GEM_NWCTRL_TXSTART);
        }
        proof {
            let pre = *old(self);
            let k = pre.tx_doorbell_count();
            assert forall|j: int| 0 <= j < k implies #[trigger] tx_slot_filled(pre, *self, j) by {
                assert(tx_slot_filled(pre, drained, j));
            }
            assert forall|j: int| k <= j < RING_LEN implies #[trigger] tx_slot_untouched(
                pre,
                *self,
                j,
            ) by {
                assert(tx_slot_untouched(pre, drained, j));
            }
        }
    }

    /// Re-arms one receive descriptor per supplied guest buffer, walking
    /// the ring from the receive cursor: the address word is rebound with
    /// ownership granted to hardware and the status word cleared.
    fn receive_doorbell(&mut self)
        requires
            old(self).wf(),
        ensures
            final(self).wf(),
            rx_doorbell_post(*old(self), *final(self)),
    {
        while self.rx_supplied > 0
            invariant
                self.wf(),
                old(self).wf(),
                self.rx_supplied <= old(self).rx_supplied_count(),
                self.rx_next as int == ring_slot(
                    old(self).rx_cursor() as int,
                    old(self).rx_supplied_count() - self.rx_supplied,
                ),
                forall|j: int|
                    0 <= j < old(self).rx_supplied_count() - self.rx_supplied
                        ==> #[trigger] rx_slot_rearmed(*old(self), *self, j),
                forall|j: int|
                    old(self).rx_supplied_count() - self.rx_supplied <= j < RING_LEN
                        ==> #[trigger] rx_slot_untouched(*old(self), *self, j),
                self.regs() == old(self).regs(),
                self.mac_bytes() == old(self).mac_bytes(),
                self.tx_descs() == old(self).tx_descs(),
                self.rx_bufs() == old(self).rx_bufs(),
                self.tx_bufs() == old(self).tx_bufs(),
                self.pending_frames() == old(self).pending_frames(),
                self.dma() == old(self).dma(),
                self.tx_cursor() == old(self).tx_cursor(),
            decreases self.rx_supplied,
        {
            let idx: usize = self.rx_next;
            let ghost entry = *self;
            let d: Descriptor = self.rx_queue[idx];
            let addr: u64 = self.layout.rx_buffer_addrs[idx];
            let word0: u32 = if idx == RING_LEN - 1 {
                (addr as u32) | DESC_0_RX_WRAP
            } else {
                addr as u32
            };
            self.rx_queue.set(idx, Descriptor { word0, word1: 0, word2: d.word2, word3: d.word3 });
            self.rx_next = if idx + 1 < RING_LEN {
                idx + 1
            } else {
                0
            };
            self.rx_supplied = self.rx_supplied - 1;
            proof {
                let pre = *old(self);
                let r0 = pre.rx_cursor() as int;  // receive cursor at function entry
                let done = pre.rx_supplied_count() - self.rx_supplied as int;
                let q0 = done - 1;
                assert forall|j: int| 0 <= j < done implies #[trigger] rx_slot_rearmed(
                    pre,
                    *self,
                    j,
                ) by {
                    if j < q0 {
                        assert(rx_slot_rearmed(pre, entry, j));
                        assert(ring_slot(r0, j) != ring_slot(r0, q0));
                    } else {
                        assert(rx_slot_untouched(pre, entry, q0));
                    }
                }
                assert forall|j: int| done <= j < RING_LEN implies #[trigger] rx_slot_untouched(
                    pre,
                    *self,
                    j,
                ) by {
                    assert(rx_slot_untouched(pre, entry, j));
                    assert(ring_slot(r0, j) != ring_slot(r0, q0));
                }
            }
        }
    }

    /// Reads one register word of the bank, as the driver has programmed it.
    pub fn register_value(&self, index: u64) -> (r: u32)
        requires
            self.wf(),
            index < GEM_REG_WORDS,
        ensures
            r == self.regs()[index as int],
    {
        self.control_registers.read(index)
    }

    /// The receive descriptor at ring index `i`.
    pub fn rx_descriptor(&self, i: usize) -> (d: Descriptor)
        requires
            self.wf(),
            i < RING_LEN,
        ensures
            d == self.rx_descs()[i as int],
    {
        self.rx_queue[i]
    }

    /// The transmit descriptor at ring index `i`.
    pub fn tx_descriptor(&self, i: usize) -> (d: Descriptor)
        requires
            self.wf(),
            i < RING_LEN,
        ensures
            d == self.tx_descs()[i as int],
    {
        self.tx_queue[i]
    }

    /// One byte of the transmit packet buffer at ring index `i`.
    pub fn tx_buffer_byte(&self, i: usize, j: usize) -> (b: u8)
        requires
            self.wf(),
            i < RING_LEN,
            j < BUFFER_LEN,
        ensures
            b == self.tx_bufs()[i as int]@[j as int],
    {
        self.tx_buffers[i][j]
    }

    /// How many guest frames wait for the next transmit doorbell.
    pub fn pending_transmit_frames(&self) -> (n: usize)
        requires
            self.wf(),
        ensures
            n == self.pending_frames().len(),
    {
        self.pending_tx.len()
    }
}

/// Copies `frame` over the head of `dest`: the returned buffer holds the
/// frame's bytes followed by the rest of `dest` unchanged.
fn fill_buffer(dest: &Vec<u8>, frame: &Vec<u8>) -> (r: Vec<u8>)
    requires
        frame@.len() <= dest@.len(),
    ensures
        r@ == frame@ + dest@.skip(frame@.len() as int),
{
    let mut r: Vec<u8> = Vec::new();
    let mut i: usize = 0;
    while i < frame.len()
        invariant
            i <= frame@.len(),
            r@ == frame@.take(i as int),
        decreases frame@.len() - i,
    {
        r.push(frame[i]);
        proof {
            assert(r@ =~= frame@.take(i as int + 1));
        }
        i = i + 1;
    }
    proof {
        assert(r@ =~= frame@ + dest@.subrange(frame@.len() as int, i as int));
    }
    while i < dest.len()
        invariant
            frame@.len() <= i <= dest@.len(),
            frame@.len() <= dest@.len(),
            r@ == frame@ + dest@.subrange(frame@.len() as int, i as int),
        decreases dest@.len() - i,
    {
        r.push(dest[i]);
        proof {
            assert(r@ =~= frame@ + dest@.subrange(frame@.len() as int, i as int + 1));
        }
        i = i + 1;
    }
    proof {
        assert(r@ =~= frame@ + dest@.skip(frame@.len() as int));
    }
    r
}

/// A vector of `n` zero bytes.
fn zeroed_bytes(n: usize) -> (r: Vec<u8>)
    ensures
        r@.len() == n,
        forall|i: int| 0 <= i < n ==> r@[i] == 0,
{
    let mut v: Vec<u8> = Vec::new();
    let mut i: usize = 0;
    while i < n
        invariant
            i <= n,
            v@.len() == i,
            forall|j: int| 0 <= j < i ==> v@[j] == 0,
        decreases n - i,
    {
        v.push(0);
        i = i + 1;
    }
    v
}

/// A pool of `RING_LEN` packet buffers of `BUFFER_LEN` zero bytes each.
fn zeroed_buffer_pool() -> (r: Vec<Vec<u8>>)
    ensures
        r@.len() == RING_LEN,
        forall|i: int| 0 <= i < RING_LEN ==> (#[trigger] r@[i])@.len() == BUFFER_LEN,
        forall|i: int, j: int| 0 <= i < RING_LEN && 0 <= j < BUFFER_LEN ==> r@[i]@[j] == 0,
{
    let mut v: Vec<Vec<u8>> = Vec::new();
    let mut i: usize = 0;
    while i < RING_LEN
        invariant
            i <= RING_LEN,
            v@.len() == i,
            forall|k: int| 0 <= k < i ==> (#[trigger] v@[k])@.len() == BUFFER_LEN,
            forall|k: int, j: int| 0 <= k < i && 0 <= j < BUFFER_LEN ==> v@[k]@[j] == 0,
        decreases RING_LEN - i,
    {
        v.push(zeroed_bytes(BUFFER_LEN));
        i = i + 1;
    }
    v
}

/// A ring of `RING_LEN` descriptors with all four words zero.
fn zeroed_ring() -> (r: Vec<Descriptor>)
    ensures
        r@.len() == RING_LEN,
        forall|i: int|
            0 <= i < RING_LEN ==> r@[i] == (Descriptor {
                word0: 0u32,
                word1: 0u32,
                word2: 0u32,
                word3: 0u32,
            }),
{
    let mut v: Vec<Descriptor> = Vec::new();
    let mut i: usize = 0;
    while i < RING_LEN
        invariant
            i <= RING_LEN,
            v@.len() == i,
            forall|j: int|
                0 <= j < i ==> v@[j] == (Descriptor {
                    word0: 0u32,
                    word1: 0u32,
                    word2: 0u32,
                    word3: 0u32,
                }),
        decreases RING_LEN - i,
    {
        v.push(Descriptor { word0: 0, word1: 0, word2: 0, word3: 0 });
        i = i + 1;
    }
    v
}

/// For every configuration-space offset 0 to 5, a write of byte `b` at
/// offset `o` followed by a read at `o` returns `b`.
pub proof fn lemma_config_write_then_read(mac: Seq<u8>, o: u64, b: u8)
    requires
        mac.len() == 6,
        o <= 5,
    ensures
        config_read_byte(mac_after_config_write(mac, o, b), o) == b,
{
}

/// For every offset of 12 and above, a configuration-space read returns
/// zero, regardless of prior configuration-space writes.
pub proof fn lemma_config_read_beyond_zero(mac: Seq<u8>, o: u64, wo: u64, wb: u8)
    requires
        o >= 12,
    ensures
        config_read_byte(mac, o) == 0,
        config_read_byte(mac_after_config_write(mac, wo, wb), o) == 0,
{
}

/// Offsets 10 and 11 read `0x00` and `0x08` — the little-endian bytes of
/// the MTU value 2048 — independent of the MAC and of prior
/// configuration-space writes.
pub proof fn lemma_config_read_mtu(mac: Seq<u8>, wo: u64, wb: u8)
    ensures
        config_read_byte(mac, 10) == 0x00,
        config_read_byte(mac, 11) == 0x08,
        config_read_byte(mac_after_config_write(mac, wo, wb), 10) == 0x00,
        config_read_byte(mac_after_config_write(mac, wo, wb), 11) == 0x08,
{
}

/// Two rings at different physical addresses cannot be programmed into
/// equal queue base register pairs: a 64-bit address is determined by the
/// low and high 32-bit words `reset` writes. Together with the `reset`
/// contract, the transmit base pair therefore differs from the receive
/// base pair whenever the rings occupy different memory.
pub proof fn lemma_distinct_bases_distinct_registers(rx_base: u64, tx_base: u64)
    requires
        rx_base != tx_base,
    ensures
        (tx_base as u32) != (rx_base as u32) || ((tx_base >> 32) as u32) != ((rx_base >> 32)
            as u32),
{
    assert((tx_base as u32) != (rx_base as u32) || ((tx_base >> 32) as u32) != ((rx_base >> 32)
        as u32)) by (bit_vector)
        requires
            rx_base != tx_base,
    ;
}

} // verus!
