use macb::DmaLayout;
use macb::MacbDriver;
use macb::regs::GEM_DMACFG;
use macb::regs::GEM_NWCFG;
use macb::regs::GEM_RBQPH;
use macb::regs::GEM_RXQBASE;
use macb::regs::GEM_TBQPH;
use macb::regs::GEM_TXQBASE;
use macb::regs::RegisterBank;

const RX_RING_BASE: u64 = 0x9_2345_6780;
const TX_RING_BASE: u64 = 0x9_2345_6700;

fn test_layout() -> DmaLayout {
    let mut rx_buffer_addrs: Vec<u64> = Vec::new();
    let mut tx_buffer_addrs: Vec<u64> = Vec::new();
    for i in 0..8u64 {
        rx_buffer_addrs.push(0x5000_0000 + 0x800 * i);
        tx_buffer_addrs.push(0x6000_0000 + 0x800 * i);
    }
    DmaLayout {
        rx_ring_base: RX_RING_BASE,
        tx_ring_base: TX_RING_BASE,
        rx_buffer_addrs,
        tx_buffer_addrs,
    }
}

#[test]
fn reset_sets_dma_config_64bit_bit_only() {
    let mut bank = RegisterBank::new();
    bank.write(GEM_DMACFG, 0xFFFF_FFFF);
    let mut d = MacbDriver::new(bank, test_layout());
    d.reset();
    assert_eq!(d.register_value(GEM_DMACFG), 1 << 30);
}

#[test]
fn reset_programs_queue_base_pairs() {
    let mut d = MacbDriver::new(RegisterBank::new(), test_layout());
    d.reset();
    assert_eq!(d.register_value(GEM_RXQBASE), RX_RING_BASE as u32);
    assert_eq!(d.register_value(GEM_RBQPH), (RX_RING_BASE >> 32) as u32);
    assert_eq!(d.register_value(GEM_TXQBASE), TX_RING_BASE as u32);
    assert_eq!(d.register_value(GEM_TBQPH), (TX_RING_BASE >> 32) as u32);
    // the rings occupy different memory, so the register pairs differ
    let rx_pair = (d.register_value(GEM_RXQBASE), d.register_value(GEM_RBQPH));
    let tx_pair = (d.register_value(GEM_TXQBASE), d.register_value(GEM_TBQPH));
    assert_ne!(rx_pair, tx_pair);
}

#[test]
fn reset_initializes_receive_descriptors() {
    let mut d = MacbDriver::new(RegisterBank::new(), test_layout());
    d.reset();
    for i in 0..8usize {
        let desc = d.rx_descriptor(i);
        let addr = (0x5000_0000u32) + 0x800 * (i as u32);
        if i == 7 {
            // the final descriptor carries the wrap marker
            assert_eq!(desc.word0, addr | 0x2);
        } else {
            assert_eq!(desc.word0, addr);
        }
        // ownership granted to hardware: bit 0 clear
        assert_eq!(desc.word0 & 0x1, 0);
        // wrap marker on the final descriptor only
        assert_eq!(desc.word0 & 0x2 != 0, i == 7);
        assert_eq!(desc.word1, 0);
    }
}

#[test]
fn reset_initializes_transmit_descriptors() {
    let mut d = MacbDriver::new(RegisterBank::new(), test_layout());
    d.reset();
    for i in 0..8usize {
        let desc = d.tx_descriptor(i);
        assert_eq!(desc.word0, 0x6000_0000u32 + 0x800 * (i as u32));
        // owned by software (used bit set), wrap marker on the last
        if i == 7 {
            assert_eq!(desc.word1, 0x8000_0000 | 0x4000_0000);
        } else {
            assert_eq!(desc.word1, 0x8000_0000);
        }
    }
}

#[test]
fn reset_preserves_mac_address() {
    let mut d = MacbDriver::new(RegisterBank::new(), test_layout());
    let bytes: [u8; 6] = [0x02, 0x11, 0x22, 0x33, 0x44, 0x55];
    for o in 0..6u64 {
        d.write_config_u8(o, bytes[o as usize]);
    }
    d.reset();
    for o in 0..6u64 {
        assert_eq!(d.read_config_u8(o), bytes[o as usize]);
    }
}

#[test]
fn reset_leaves_unrelated_registers_alone() {
    let mut bank = RegisterBank::new();
    bank.write(GEM_NWCFG, 0xDEAD_BEEF);
    let mut d = MacbDriver::new(bank, test_layout());
    d.reset();
    assert_eq!(d.register_value(GEM_NWCFG), 0xDEAD_BEEF);
}
