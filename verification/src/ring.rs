//! Hardware transmit and receive descriptors and their ring initialization.
//!
//! A descriptor is four 32-bit words; only the first two are populated in the
//! base (32-bit-extension-disabled) mode. Word 0 holds the physical buffer
//! address; on receive its two low bits are repurposed as the
//! software/hardware ownership toggle (bit 0) and the ring-wrap marker
//! (bit 1). Word 1 holds length and frame flags; on transmit bit 31 is the
//! hardware-done/"used" bit, bit 30 the wrap marker, and bit 15 the
//! last-buffer-of-frame flag.

use vstd::prelude::*;

verus! {

/* Descriptor word 1 bits. */
pub const DESC_1_USED: u32 = 0x80000000;
pub const DESC_1_LENGTH: u32 = 0x00001FFF;

pub const DESC_1_TX_WRAP: u32 = 0x40000000;
pub const DESC_1_TX_LAST: u32 = 0x00008000;

/* Descriptor word 0 bits (receive). */
pub const DESC_0_RX_WRAP: u32 = 0x00000002;
pub const DESC_0_RX_OWNERSHIP: u32 = 0x00000001;

/// Word 0 with the two repurposed flag bits masked off: the buffer address
/// bits of a receive descriptor.
pub const DESC_0_RX_ADDR_MASK: u32 = 0xFFFFFFFC;

pub const R_DESC_1_RX_SAR_SHIFT: u32 = 25;
pub const R_DESC_1_RX_SAR_LENGTH: u32 = 2;
pub const R_DESC_1_RX_SAR_MATCH: u32 = 1 << 27;
pub const R_DESC_1_RX_UNICAST_HASH: u32 = 1 << 29;
pub const R_DESC_1_RX_MULTICAST_HASH: u32 = 1 << 30;
pub const R_DESC_1_RX_BROADCAST: u32 = 1 << 31;

pub const DESC_1_RX_SOF: u32 = 0x00004000;
pub const DESC_1_RX_EOF: u32 = 0x00008000;

/// Descriptors per ring.
pub const RING_LEN: usize = 8;

/// Bytes per packet buffer, sized to the advertised MTU.
pub const BUFFER_LEN: usize = 2048;

/// One hardware descriptor: four 32-bit words, bit-exact with the
/// documented descriptor format.
#[derive(Clone, Copy, PartialEq, Eq, Structural, Debug)]
pub struct Descriptor {
    pub word0: u32,
    pub word1: u32,
    pub word2: u32,
    pub word3: u32,
}

/// Word 0 of a freshly initialized receive descriptor: the physical buffer
/// address, the wrap marker on the ring's final descriptor, and the
/// ownership bit clear (owned by hardware, ready to receive).
pub open spec fn rx_desc_addr_word(addr: u64, wrap: bool) -> u32
    recommends
        addr % 4 == 0,
        addr <= 0xFFFFFFFF,
{
    if wrap {
        (addr as u32) | DESC_0_RX_WRAP
    } else {
        addr as u32
    }
}

/// Word 1 of a freshly initialized transmit descriptor: the used bit set
/// (owned by software, nothing queued), plus the wrap marker on the ring's
/// final descriptor.
pub open spec fn tx_desc_init_word1(wrap: bool) -> u32 {
    if wrap {
        DESC_1_USED | DESC_1_TX_WRAP
    } else {
        DESC_1_USED
    }
}

/// Word 1 of a transmit descriptor handed to hardware for a frame of
/// `len` bytes: the frame length, the last-buffer-of-frame flag, the wrap
/// marker on the ring's final descriptor, and the used bit clear (owned by
/// hardware).
pub open spec fn tx_desc_frame_word1(len: u32, wrap: bool) -> u32
    recommends
        len <= DESC_1_LENGTH,
{
    if wrap {
        len | DESC_1_TX_LAST | DESC_1_TX_WRAP
    } else {
        len | DESC_1_TX_LAST
    }
}

/// A transmit descriptor whose used bit is set is owned by software and free
/// to be filled with a new frame.
pub open spec fn tx_desc_sw_owned(d: Descriptor) -> bool {
    d.word1 & DESC_1_USED != 0
}

/// The ring slot `offset` descriptors after `start`, wrapping past the
/// ring's final descriptor back to index 0: a cursor advanced modulo the
/// ring length.
pub open spec fn ring_slot(start: int, offset: int) -> int
    recommends
        0 <= start < RING_LEN,
        0 <= offset <= RING_LEN,
{
    if start + offset < RING_LEN {
        start + offset
    } else {
        start + offset - RING_LEN
    }
}

/// The length of the run of software-owned transmit descriptors from cursor
/// offset `j`, stopping either after `want` descriptors (the frames waiting
/// to be placed) or at the first descriptor hardware still owns — a
/// doorbell never blocks on a full ring.
pub open spec fn tx_queueable_from(descs: Seq<Descriptor>, start: int, j: int, want: int) -> int
    recommends
        descs.len() == RING_LEN,
        0 <= start < RING_LEN,
        0 <= j,
        want <= RING_LEN,
    decreases want - j,
{
    if j >= want {
        0
    } else if tx_desc_sw_owned(descs[ring_slot(start, j)]) {
        1 + tx_queueable_from(descs, start, j + 1, want)
    } else {
        0
    }
}

/// Splitting the software-owned run at offset `j`: while every slot before
/// `j` is software-owned, the run from offset `a` is `j - a` longer than
/// the run from `j`.
pub(crate) proof fn lemma_tx_queueable_split(
    descs: Seq<Descriptor>,
    start: int,
    a: int,
    j: int,
    want: int,
)
    requires
        0 <= a <= j,
        j <= want,
        forall|i: int| a <= i < j ==> tx_desc_sw_owned(descs[#[trigger] ring_slot(start, i)]),
    ensures
        tx_queueable_from(descs, start, a, want) == (j - a) + tx_queueable_from(
            descs,
            start,
            j,
            want,
        ),
    decreases j - a,
{
    if a < j {
        assert(tx_desc_sw_owned(descs[ring_slot(start, a)]));
        lemma_tx_queueable_split(descs, start, a + 1, j, want);
    }
}

/// How the flag bits of a receive descriptor's word 0 decompose when the
/// buffer address has its two low bits clear: the ownership bit is zero, the
/// wrap marker is present exactly when asked for, and masking the two flag
/// bits off returns the address.
pub proof fn lemma_rx_desc_addr_word_fields(addr: u64, wrap: bool)
    requires
        addr % 4 == 0,
        addr <= 0xFFFFFFFF,
    ensures
        rx_desc_addr_word(addr, wrap) & DESC_0_RX_OWNERSHIP == 0,
        rx_desc_addr_word(addr, wrap) & DESC_0_RX_WRAP == (if wrap {
            DESC_0_RX_WRAP
        } else {
            0u32
        }),
        rx_desc_addr_word(addr, wrap) & DESC_0_RX_ADDR_MASK == addr,
        !wrap ==> rx_desc_addr_word(addr, wrap) == addr,
{
    assert((addr as u32) & 0x00000001u32 == 0 && ((addr as u32) | 0x00000002u32)
        & 0x00000001u32 == 0 && (addr as u32) & 0x00000002u32 == 0 && ((addr as u32)
        | 0x00000002u32) & 0x00000002u32 == 0x00000002u32 && (addr as u32)
        & 0xFFFFFFFCu32 == addr && ((addr as u32) | 0x00000002u32) & 0xFFFFFFFCu32 == addr
        && (addr as u32) == addr) by (bit_vector)
        requires
            addr % 4 == 0,
            addr <= 0xFFFFFFFF,
    ;
}

/// Initializes a receive ring of `RING_LEN` descriptors: descriptor `i`'s
/// address word is bound to the physical address of buffer `i` with
/// ownership granted to hardware, status and length are cleared, and the
/// final descriptor carries the wrap marker so hardware restarts traversal
/// at index 0.
pub fn initialize_rx_ring(ring: &mut Vec<Descriptor>, buffer_addrs: &Vec<u64>)
    requires
        old(ring)@.len() == RING_LEN,
        buffer_addrs@.len() == RING_LEN,
    ensures
        final(ring)@.len() == RING_LEN,
        forall|i: int|
            0 <= i < RING_LEN ==> final(ring)@[i] == (Descriptor {
                word0: rx_desc_addr_word(buffer_addrs@[i], i == RING_LEN - 1),
                word1: 0u32,
                word2: 0u32,
                word3: 0u32,
            }),
{
    let mut i: usize = 0;
    while i < RING_LEN
        invariant
            i <= RING_LEN,
            ring@.len() == RING_LEN,
            buffer_addrs@.len() == RING_LEN,
            forall|j: int|
                0 <= j < i ==> ring@[j] == (Descriptor {
                    word0: rx_desc_addr_word(buffer_addrs@[j], j == RING_LEN - 1),
                    word1: 0u32,
                    word2: 0u32,
                    word3: 0u32,
                }),
        decreases RING_LEN - i,
    {
        let addr: u64 = buffer_addrs[i];
        let word0: u32 = if i == RING_LEN - 1 {
            (addr as u32) | DESC_0_RX_WRAP
        } else {
            addr as u32
        };
        ring.set(i, Descriptor { word0, word1: 0, word2: 0, word3: 0 });
        i = i + 1;
    }
}

/// Initializes a transmit ring of `RING_LEN` descriptors: descriptor `i`'s
/// address word is bound to the physical address of buffer `i`, the used bit
/// is set so ownership stays with software (nothing queued), and the final
/// descriptor carries the wrap marker.
pub fn initialize_tx_ring(ring: &mut Vec<Descriptor>, buffer_addrs: &Vec<u64>)
    requires
        old(ring)@.len() == RING_LEN,
        buffer_addrs@.len() == RING_LEN,
    ensures
        final(ring)@.len() == RING_LEN,
        forall|i: int|
            0 <= i < RING_LEN ==> final(ring)@[i] == (Descriptor {
                word0: buffer_addrs@[i] as u32,
                word1: tx_desc_init_word1(i == RING_LEN - 1),
                word2: 0u32,
                word3: 0u32,
            }),
{
    let mut i: usize = 0;
    while i < RING_LEN
        invariant
            i <= RING_LEN,
            ring@.len() == RING_LEN,
            buffer_addrs@.len() == RING_LEN,
            forall|j: int|
                0 <= j < i ==> ring@[j] == (Descriptor {
                    word0: buffer_addrs@[j] as u32,
                    word1: tx_desc_init_word1(j == RING_LEN - 1),
                    word2: 0u32,
                    word3: 0u32,
                }),
        decreases RING_LEN - i,
    {
        let addr: u64 = buffer_addrs[i];
        let word1: u32 = if i == RING_LEN - 1 {
            DESC_1_USED | DESC_1_TX_WRAP
        } else {
            DESC_1_USED
        };
        ring.set(i, Descriptor { word0: addr as u32, word1, word2: 0, word3: 0 });
        i = i + 1;
    }
}

} // verus!
