//! Register map of the Cadence GEM Ethernet MAC.
//!
//! Each `GEM_*` index constant is a 32-bit-word index into the register bank
//! (byte offset divided by 4); the remaining constants are bit masks and
//! (shift, width) pairs over the 32-bit register values. `RegisterBank` is
//! the driver's read/write indexed view over that word-addressed bank.

use vstd::prelude::*;

verus! {

/// Number of 32-bit words the register bank spans (byte offsets 0x000..0x800).
pub const GEM_REG_WORDS: u64 = 512;

/* Control, configuration, status and queue registers (word indices). */
pub const GEM_NWCTRL: u64 = 0x00000000 / 4; /* Network Control reg */
pub const GEM_NWCFG: u64 = 0x00000004 / 4; /* Network Config reg */
pub const GEM_NWSTATUS: u64 = 0x00000008 / 4; /* Network Status reg */
pub const GEM_USERIO: u64 = 0x0000000C / 4; /* User IO reg */
pub const GEM_DMACFG: u64 = 0x00000010 / 4; /* DMA Control reg */
pub const GEM_TXSTATUS: u64 = 0x00000014 / 4; /* TX Status reg */
pub const GEM_RXQBASE: u64 = 0x00000018 / 4; /* RX Q Base address reg */
pub const GEM_TXQBASE: u64 = 0x0000001C / 4; /* TX Q Base address reg */
pub const GEM_RXSTATUS: u64 = 0x00000020 / 4; /* RX Status reg */
pub const GEM_ISR: u64 = 0x00000024 / 4; /* Interrupt Status reg */
pub const GEM_IER: u64 = 0x00000028 / 4; /* Interrupt Enable reg */
pub const GEM_IDR: u64 = 0x0000002C / 4; /* Interrupt Disable reg */
pub const GEM_IMR: u64 = 0x00000030 / 4; /* Interrupt Mask reg */
pub const GEM_PHYMNTNC: u64 = 0x00000034 / 4; /* Phy Maintenance reg */
pub const GEM_RXPAUSE: u64 = 0x00000038 / 4; /* RX Pause Time reg */
pub const GEM_TXPAUSE: u64 = 0x0000003C / 4; /* TX Pause Time reg */
pub const GEM_TXPARTIALSF: u64 = 0x00000040 / 4; /* TX Partial Store and Forward */
pub const GEM_RXPARTIALSF: u64 = 0x00000044 / 4; /* RX Partial Store and Forward */
pub const GEM_HASHLO: u64 = 0x00000080 / 4; /* Hash Low address reg */
pub const GEM_HASHHI: u64 = 0x00000084 / 4; /* Hash High address reg */
pub const GEM_SPADDR1LO: u64 = 0x00000088 / 4; /* Specific addr 1 low reg */
pub const GEM_SPADDR1HI: u64 = 0x0000008C / 4; /* Specific addr 1 high reg */
pub const GEM_SPADDR2LO: u64 = 0x00000090 / 4; /* Specific addr 2 low reg */
pub const GEM_SPADDR2HI: u64 = 0x00000094 / 4; /* Specific addr 2 high reg */
pub const GEM_SPADDR3LO: u64 = 0x00000098 / 4; /* Specific addr 3 low reg */
pub const GEM_SPADDR3HI: u64 = 0x0000009C / 4; /* Specific addr 3 high reg */
pub const GEM_SPADDR4LO: u64 = 0x000000A0 / 4; /* Specific addr 4 low reg */
pub const GEM_SPADDR4HI: u64 = 0x000000A4 / 4; /* Specific addr 4 high reg */
pub const GEM_TIDMATCH1: u64 = 0x000000A8 / 4; /* Type ID1 Match reg */
pub const GEM_TIDMATCH2: u64 = 0x000000AC / 4; /* Type ID2 Match reg */
pub const GEM_TIDMATCH3: u64 = 0x000000B0 / 4; /* Type ID3 Match reg */
pub const GEM_TIDMATCH4: u64 = 0x000000B4 / 4; /* Type ID4 Match reg */
pub const GEM_WOLAN: u64 = 0x000000B8 / 4; /* Wake on LAN reg */
pub const GEM_IPGSTRETCH: u64 = 0x000000BC / 4; /* IPG Stretch reg */
pub const GEM_SVLAN: u64 = 0x000000C0 / 4; /* Stacked VLAN reg */
pub const GEM_MODID: u64 = 0x000000FC / 4; /* Module ID reg */

/* Statistics counter bank (word indices). */
pub const GEM_OCTTXLO: u64 = 0x00000100 / 4; /* Octets transmitted Low reg */
pub const GEM_OCTTXHI: u64 = 0x00000104 / 4; /* Octets transmitted High reg */
pub const GEM_TXCNT: u64 = 0x00000108 / 4; /* Error-free Frames transmitted */
pub const GEM_TXBCNT: u64 = 0x0000010C / 4; /* Error-free Broadcast Frames */
pub const GEM_TXMCNT: u64 = 0x00000110 / 4; /* Error-free Multicast Frame */
pub const GEM_TXPAUSECNT: u64 = 0x00000114 / 4; /* Pause Frames Transmitted */
pub const GEM_TX64CNT: u64 = 0x00000118 / 4; /* Error-free 64 TX */
pub const GEM_TX65CNT: u64 = 0x0000011C / 4; /* Error-free 65-127 TX */
pub const GEM_TX128CNT: u64 = 0x00000120 / 4; /* Error-free 128-255 TX */
pub const GEM_TX256CNT: u64 = 0x00000124 / 4; /* Error-free 256-511 */
pub const GEM_TX512CNT: u64 = 0x00000128 / 4; /* Error-free 512-1023 TX */
pub const GEM_TX1024CNT: u64 = 0x0000012C / 4; /* Error-free 1024-1518 TX */
pub const GEM_TX1519CNT: u64 = 0x00000130 / 4; /* Error-free larger than 1519 TX */
pub const GEM_TXURUNCNT: u64 = 0x00000134 / 4; /* TX under run error counter */
pub const GEM_SINGLECOLLCNT: u64 = 0x00000138 / 4; /* Single Collision Frames */
pub const GEM_MULTCOLLCNT: u64 = 0x0000013C / 4; /* Multiple Collision Frames */
pub const GEM_EXCESSCOLLCNT: u64 = 0x00000140 / 4; /* Excessive Collision Frames */
pub const GEM_LATECOLLCNT: u64 = 0x00000144 / 4; /* Late Collision Frames */
pub const GEM_DEFERTXCNT: u64 = 0x00000148 / 4; /* Deferred Transmission Frames */
pub const GEM_CSENSECNT: u64 = 0x0000014C / 4; /* Carrier Sense Error Counter */
pub const GEM_OCTRXLO: u64 = 0x00000150 / 4; /* Octets Received register Low */
pub const GEM_OCTRXHI: u64 = 0x00000154 / 4; /* Octets Received register High */
pub const GEM_RXCNT: u64 = 0x00000158 / 4; /* Error-free Frames Received */
pub const GEM_RXBROADCNT: u64 = 0x0000015C / 4; /* Error-free Broadcast Frames RX */
pub const GEM_RXMULTICNT: u64 = 0x00000160 / 4; /* Error-free Multicast Frames RX */
pub const GEM_RXPAUSECNT: u64 = 0x00000164 / 4; /* Pause Frames Received Counter */
pub const GEM_RX64CNT: u64 = 0x00000168 / 4; /* Error-free 64 byte Frames RX */
pub const GEM_RX65CNT: u64 = 0x0000016C / 4; /* Error-free 65-127B Frames RX */
pub const GEM_RX128CNT: u64 = 0x00000170 / 4; /* Error-free 128-255B Frames RX */
pub const GEM_RX256CNT: u64 = 0x00000174 / 4; /* Error-free 256-512B Frames RX */
pub const GEM_RX512CNT: u64 = 0x00000178 / 4; /* Error-free 512-1023B Frames RX */
pub const GEM_RX1024CNT: u64 = 0x0000017C / 4; /* Error-free 1024-1518B Frames RX */
pub const GEM_RX1519CNT: u64 = 0x00000180 / 4; /* Error-free 1519-max Frames RX */
pub const GEM_RXUNDERCNT: u64 = 0x00000184 / 4; /* Undersize Frames Received */
pub const GEM_RXOVERCNT: u64 = 0x00000188 / 4; /* Oversize Frames Received */
pub const GEM_RXJABCNT: u64 = 0x0000018C / 4; /* Jabbers Received Counter */
pub const GEM_RXFCSCNT: u64 = 0x00000190 / 4; /* Frame Check seq. Error Counter */
pub const GEM_RXLENERRCNT: u64 = 0x00000194 / 4; /* Length Field Error Counter */
pub const GEM_RXSYMERRCNT: u64 = 0x00000198 / 4; /* Symbol Error Counter */
pub const GEM_RXALIGNERRCNT: u64 = 0x0000019C / 4; /* Alignment Error Counter */
pub const GEM_RXRSCERRCNT: u64 = 0x000001A0 / 4; /* Receive Resource Error Counter */
pub const GEM_RXORUNCNT: u64 = 0x000001A4 / 4; /* Receive Overrun Counter */
pub const GEM_RXIPCSERRCNT: u64 = 0x000001A8 / 4; /* IP header Checksum Error Counter */
pub const GEM_RXTCPCCNT: u64 = 0x000001AC / 4; /* TCP Checksum Error Counter */
pub const GEM_RXUDPCCNT: u64 = 0x000001B0 / 4; /* UDP Checksum Error Counter */

/* 1588 timestamp registers (word indices); the event and peer timestamp
 * registers legitimately share offsets in the hardware layout. */
pub const GEM_1588S: u64 = 0x000001D0 / 4; /* 1588 Timer Seconds */
pub const GEM_1588NS: u64 = 0x000001D4 / 4; /* 1588 Timer Nanoseconds */
pub const GEM_1588ADJ: u64 = 0x000001D8 / 4; /* 1588 Timer Adjust */
pub const GEM_1588INC: u64 = 0x000001DC / 4; /* 1588 Timer Increment */
pub const GEM_PTPETXS: u64 = 0x000001E0 / 4; /* PTP Event Frame Transmitted (s) */
pub const GEM_PTPETXNS: u64 = 0x000001E4 / 4; /* PTP Event Frame Transmitted (ns) */
pub const GEM_PTPERXS: u64 = 0x000001E8 / 4; /* PTP Event Frame Received (s) */
pub const GEM_PTPERXNS: u64 = 0x000001EC / 4; /* PTP Event Frame Received (ns) */
pub const GEM_PTPPTXS: u64 = 0x000001E0 / 4; /* PTP Peer Frame Transmitted (s) */
pub const GEM_PTPPTXNS: u64 = 0x000001E4 / 4; /* PTP Peer Frame Transmitted (ns) */
pub const GEM_PTPPRXS: u64 = 0x000001E8 / 4; /* PTP Peer Frame Received (s) */
pub const GEM_PTPPRXNS: u64 = 0x000001EC / 4; /* PTP Peer Frame Received (ns) */

/* Design configuration (capability) registers (word indices). */
pub const GEM_DESCONF: u64 = 0x00000280 / 4;
pub const GEM_DESCONF2: u64 = 0x00000284 / 4;
pub const GEM_DESCONF3: u64 = 0x00000288 / 4;
pub const GEM_DESCONF4: u64 = 0x0000028C / 4;
pub const GEM_DESCONF5: u64 = 0x00000290 / 4;
pub const GEM_DESCONF6: u64 = 0x00000294 / 4;
pub const GEM_DESCONF6_64B_MASK: u32 = 1 << 23;
pub const GEM_DESCONF7: u64 = 0x00000298 / 4;

/* Per-queue banks at fixed strides (word indices). */
pub const GEM_INT_Q1_STATUS: u64 = 0x00000400 / 4;

pub const GEM_TRANSMIT_Q1_PTR: u64 = 0x00000440 / 4;
pub const GEM_TRANSMIT_Q7_PTR: u64 = GEM_TRANSMIT_Q1_PTR + 6;

pub const GEM_RECEIVE_Q1_PTR: u64 = 0x00000480 / 4;
pub const GEM_RECEIVE_Q7_PTR: u64 = GEM_RECEIVE_Q1_PTR + 6;

pub const GEM_TBQPH: u64 = 0x000004C8 / 4; /* TX Q Base address high bits reg */
pub const GEM_RBQPH: u64 = 0x000004D4 / 4; /* RX Q Base address high bits reg */

pub const GEM_INT_Q1_ENABLE: u64 = 0x00000600 / 4;
pub const GEM_INT_Q7_ENABLE: u64 = GEM_INT_Q1_ENABLE + 6;

pub const GEM_INT_Q1_DISABLE: u64 = 0x00000620 / 4;
pub const GEM_INT_Q7_DISABLE: u64 = GEM_INT_Q1_DISABLE + 6;

pub const GEM_INT_Q1_MASK: u64 = 0x00000640 / 4;
pub const GEM_INT_Q7_MASK: u64 = GEM_INT_Q1_MASK + 6;

/* Screening (packet filter) registers (word indices) and their fields. */
pub const GEM_SCREENING_TYPE1_REGISTER_0: u64 = 0x00000500 / 4;

pub const GEM_ST1R_UDP_PORT_MATCH_ENABLE: u32 = 1 << 29;
pub const GEM_ST1R_DSTC_ENABLE: u32 = 1 << 28;
pub const GEM_ST1R_UDP_PORT_MATCH_SHIFT: u32 = 12;
pub const GEM_ST1R_UDP_PORT_MATCH_WIDTH: u32 = 27 - GEM_ST1R_UDP_PORT_MATCH_SHIFT + 1;
pub const GEM_ST1R_DSTC_MATCH_SHIFT: u32 = 4;
pub const GEM_ST1R_DSTC_MATCH_WIDTH: u32 = 11 - GEM_ST1R_DSTC_MATCH_SHIFT + 1;
pub const GEM_ST1R_QUEUE_SHIFT: u32 = 0;
pub const GEM_ST1R_QUEUE_WIDTH: u32 = 3 - GEM_ST1R_QUEUE_SHIFT + 1;

pub const GEM_SCREENING_TYPE2_REGISTER_0: u64 = 0x00000540 / 4;

pub const GEM_ST2R_COMPARE_A_ENABLE: u32 = 1 << 18;
pub const GEM_ST2R_COMPARE_A_SHIFT: u32 = 13;
pub const GEM_ST2R_COMPARE_WIDTH: u32 = 17 - GEM_ST2R_COMPARE_A_SHIFT + 1;
pub const GEM_ST2R_ETHERTYPE_ENABLE: u32 = 1 << 12;
pub const GEM_ST2R_ETHERTYPE_INDEX_SHIFT: u32 = 9;
pub const GEM_ST2R_ETHERTYPE_INDEX_WIDTH: u32 = 11 - GEM_ST2R_ETHERTYPE_INDEX_SHIFT + 1;
pub const GEM_ST2R_QUEUE_SHIFT: u32 = 0;
pub const GEM_ST2R_QUEUE_WIDTH: u32 = 3 - GEM_ST2R_QUEUE_SHIFT + 1;

pub const GEM_SCREENING_TYPE2_ETHERTYPE_REG_0: u64 = 0x000006E0 / 4;
pub const GEM_TYPE2_COMPARE_0_WORD_0: u64 = 0x00000700 / 4;

pub const GEM_T2CW1_COMPARE_OFFSET_SHIFT: u32 = 7;
pub const GEM_T2CW1_COMPARE_OFFSET_WIDTH: u32 = 8 - GEM_T2CW1_COMPARE_OFFSET_SHIFT + 1;
pub const GEM_T2CW1_OFFSET_VALUE_SHIFT: u32 = 0;
pub const GEM_T2CW1_OFFSET_VALUE_WIDTH: u32 = 6 - GEM_T2CW1_OFFSET_VALUE_SHIFT + 1;

/* Network control register bits. */
pub const GEM_NWCTRL_TXSTART: u32 = 0x00000200; /* Transmit Start */
pub const GEM_NWCTRL_TXENA: u32 = 0x00000008; /* Transmit Enable */
pub const GEM_NWCTRL_RXENA: u32 = 0x00000004; /* Receive Enable */
pub const GEM_NWCTRL_LOCALLOOP: u32 = 0x00000002; /* Local Loopback */

/* Network config register bits. */
pub const GEM_NWCFG_STRIP_FCS: u32 = 0x00020000; /* Strip FCS field */
pub const GEM_NWCFG_LERR_DISC: u32 = 0x00010000; /* Discard RX frames with len err */
pub const GEM_NWCFG_BUFF_OFST_M: u32 = 0x0000C000; /* Receive buffer offset mask */
pub const GEM_NWCFG_BUFF_OFST_S: u32 = 14; /* Receive buffer offset shift */
pub const GEM_NWCFG_UCAST_HASH: u32 = 0x00000080; /* accept unicast if hash match */
pub const GEM_NWCFG_MCAST_HASH: u32 = 0x00000040; /* accept multicast if hash match */
pub const GEM_NWCFG_BCAST_REJ: u32 = 0x00000020; /* Reject broadcast packets */
pub const GEM_NWCFG_PROMISC: u32 = 0x00000010; /* Accept all packets */

/* DMA config register bits. */
pub const GEM_DMACFG_ADDR_64B: u32 = 1 << 30;
pub const GEM_DMACFG_TX_BD_EXT: u32 = 1 << 29;
pub const GEM_DMACFG_RX_BD_EXT: u32 = 1 << 28;
pub const GEM_DMACFG_RBUFSZ_M: u32 = 0x00FF0000; /* DMA RX Buffer Size mask */
pub const GEM_DMACFG_RBUFSZ_S: u32 = 16; /* DMA RX Buffer Size shift */
pub const GEM_DMACFG_RBUFSZ_MUL: u32 = 64; /* DMA RX Buffer Size multiplier */
pub const GEM_DMACFG_TXCSUM_OFFL: u32 = 0x00000800; /* Transmit checksum offload */

/* Transmit and receive status register bits. */
pub const GEM_TXSTATUS_TXCMPL: u32 = 0x00000020; /* Transmit Complete */
pub const GEM_TXSTATUS_USED: u32 = 0x00000001; /* sw owned descriptor encountered */

pub const GEM_RXSTATUS_FRMRCVD: u32 = 0x00000002; /* Frame received */
pub const GEM_RXSTATUS_NOBUF: u32 = 0x00000001; /* Buffer unavailable */

/* Bits of GEM_ISR, GEM_IER, GEM_IDR and GEM_IMR. */
pub const GEM_INT_TXCMPL: u32 = 0x00000080; /* Transmit Complete */
pub const GEM_INT_TXUSED: u32 = 0x00000008;
pub const GEM_INT_RXUSED: u32 = 0x00000004;
pub const GEM_INT_RXCMPL: u32 = 0x00000002;

/// The interrupt-status conditions that are relevant to the guest: transmit
/// complete, receive complete, and the two queue-used conditions.
pub const GEM_INT_GUEST: u32 = GEM_INT_TXCMPL | GEM_INT_TXUSED | GEM_INT_RXUSED | GEM_INT_RXCMPL;

/* PHY management-interface encoding. */
pub const GEM_PHYMNTNC_OP_R: u32 = 0x20000000; /* read operation */
pub const GEM_PHYMNTNC_OP_W: u32 = 0x10000000; /* write operation */
pub const GEM_PHYMNTNC_ADDR: u32 = 0x0F800000; /* Address bits */
pub const GEM_PHYMNTNC_ADDR_SHFT: u32 = 23;
pub const GEM_PHYMNTNC_REG: u32 = 0x007C0000; /* register bits */
pub const GEM_PHYMNTNC_REG_SHIFT: u32 = 18;

/* Marvell PHY definitions. */
pub const BOARD_PHY_ADDRESS: u32 = 23; /* PHY address we will emulate a device at */

pub const PHY_REG_CONTROL: u32 = 0;
pub const PHY_REG_STATUS: u32 = 1;
pub const PHY_REG_PHYID1: u32 = 2;
pub const PHY_REG_PHYID2: u32 = 3;
pub const PHY_REG_ANEGADV: u32 = 4;
pub const PHY_REG_LINKPABIL: u32 = 5;
pub const PHY_REG_ANEGEXP: u32 = 6;
pub const PHY_REG_NEXTP: u32 = 7;
pub const PHY_REG_LINKPNEXTP: u32 = 8;
pub const PHY_REG_100BTCTRL: u32 = 9;
pub const PHY_REG_1000BTSTAT: u32 = 10;
pub const PHY_REG_EXTSTAT: u32 = 15;
pub const PHY_REG_PHYSPCFC_CTL: u32 = 16;
pub const PHY_REG_PHYSPCFC_ST: u32 = 17;
pub const PHY_REG_INT_EN: u32 = 18;
pub const PHY_REG_INT_ST: u32 = 19;
pub const PHY_REG_EXT_PHYSPCFC_CTL: u32 = 20;
pub const PHY_REG_RXERR: u32 = 21;
pub const PHY_REG_EACD: u32 = 22;
pub const PHY_REG_LED: u32 = 24;
pub const PHY_REG_LED_OVRD: u32 = 25;
pub const PHY_REG_EXT_PHYSPCFC_CTL2: u32 = 26;
pub const PHY_REG_EXT_PHYSPCFC_ST: u32 = 27;
pub const PHY_REG_CABLE_DIAG: u32 = 28;

pub const PHY_REG_CONTROL_RST: u32 = 0x8000;
pub const PHY_REG_CONTROL_LOOP: u32 = 0x4000;
pub const PHY_REG_CONTROL_ANEG: u32 = 0x1000;

pub const PHY_REG_STATUS_LINK: u32 = 0x0004;
pub const PHY_REG_STATUS_ANEGCMPL: u32 = 0x0020;

pub const PHY_REG_INT_ST_ANEGCMPL: u32 = 0x0800;
pub const PHY_REG_INT_ST_LINKC: u32 = 0x0400;
pub const PHY_REG_INT_ST_ENERGY: u32 = 0x0010;

pub const GEM_MODID_VALUE: u32 = 0x00020118;

/// The mask `(1 << width) - 1` selecting the low `width` bits of a register
/// value.
pub open spec fn spec_field_mask(width: u32) -> u32
    recommends
        width <= 32,
{
    ((1u64 << width) - 1) as u32
}

/// What `extract_field` computes: the `width`-bit sub-field of `value` that
/// starts at bit `shift`.
pub open spec fn spec_extract_field(value: u32, shift: u32, width: u32) -> u32
    recommends
        1 <= width,
        shift + width <= 32,
{
    (value >> shift) & spec_field_mask(width)
}

/// What `insert_field` computes: `value` with its `width`-bit sub-field at
/// bit `shift` replaced by the low `width` bits of `field`.
pub open spec fn spec_insert_field(value: u32, shift: u32, width: u32, field: u32) -> u32
    recommends
        1 <= width,
        shift + width <= 32,
{
    (value & !(spec_field_mask(width) << shift)) | ((field & spec_field_mask(width)) << shift)
}

/// The executable counterpart of `spec_field_mask`.
fn field_mask(width: u32) -> (r: u32)
    requires
        1 <= width,
        width <= 32,
    ensures
        r == spec_field_mask(width),
{
    proof {
        assert(1u64 << width >= 1) by (bit_vector)
            requires width <= 32;
    }
    ((1u64 << width) - 1) as u32
}

/// Reads the `(shift, width)` sub-field of a register value:
/// `(value >> shift) & ((1 << width) - 1)`.
pub fn extract_field(value: u32, shift: u32, width: u32) -> (r: u32)
    requires
        1 <= width,
        shift + width <= 32,
    ensures
        r == spec_extract_field(value, shift, width),
{
    (value >> shift) & field_mask(width)
}

/// Composes the `(shift, width)` sub-field of a register value: the inverse
/// of `extract_field`, leaving all bits outside the field unchanged.
pub fn insert_field(value: u32, shift: u32, width: u32, field: u32) -> (r: u32)
    requires
        1 <= width,
        shift + width <= 32,
    ensures
        r == spec_insert_field(value, shift, width, field),
{
    let mask: u32 = field_mask(width);
    (value & !(mask << shift)) | ((field & mask) << shift)
}

/// The driver's read/write indexed view over the 32-bit-word-addressed
/// register bank of the MAC.
pub struct RegisterBank {
    words: Vec<u32>,
}

impl View for RegisterBank {
    type V = Seq<u32>;

    closed spec fn view(&self) -> Seq<u32> {
        self.words@
    }
}

impl RegisterBank {
    /// The bank holds exactly one word per register index.
    pub open spec fn wf(self) -> bool {
        self@.len() == GEM_REG_WORDS
    }

    /// A bank with every register word zero.
    pub fn new() -> (r: RegisterBank)
        ensures
            r.wf(),
            forall|i: int| 0 <= i < GEM_REG_WORDS ==> r@[i] == 0,
    {
        let mut words: Vec<u32> = Vec::new();
        let mut i: u64 = 0;
        while i < GEM_REG_WORDS
            invariant
                i <= GEM_REG_WORDS,
                words@.len() == i,
                forall|j: int| 0 <= j < i ==> words@[j] == 0,
            decreases GEM_REG_WORDS - i,
        {
            words.push(0);
            i = i + 1;
        }
        RegisterBank { words }
    }

    /// Reads the register word at `index`.
    pub fn read(&self, index: u64) -> (r: u32)
        requires
            self.wf(),
            index < GEM_REG_WORDS,
        ensures
            r == self@[index as int],
    {
        self.words[index as usize]
    }

    /// Writes the register word at `index`, leaving every other word as it was.
    pub fn write(&mut self, index: u64, value: u32)
        requires
            old(self).wf(),
            index < GEM_REG_WORDS,
        ensures
            final(self).wf(),
            final(self)@ == old(self)@.update(index as int, value),
    {
        self.words.set(index as usize, value);
    }
}

} // verus!
