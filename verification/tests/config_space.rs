use macb::DmaLayout;
use macb::MacbDriver;
use macb::regs::GEM_SPADDR1HI;
use macb::regs::GEM_SPADDR1LO;
use macb::regs::RegisterBank;

fn test_layout() -> DmaLayout {
    let mut rx_buffer_addrs: Vec<u64> = Vec::new();
    let mut tx_buffer_addrs: Vec<u64> = Vec::new();
    for i in 0..8u64 {
        rx_buffer_addrs.push(0x5000_0000 + 0x800 * i);
        tx_buffer_addrs.push(0x6000_0000 + 0x800 * i);
    }
    DmaLayout {
        rx_ring_base: 0x4000_0000,
        tx_ring_base: 0x4000_1000,
        rx_buffer_addrs,
        tx_buffer_addrs,
    }
}

fn test_driver() -> MacbDriver {
    MacbDriver::new(RegisterBank::new(), test_layout())
}

#[test]
fn mac_write_then_read_roundtrip() {
    let mut d = test_driver();
    let bytes: [u8; 6] = [0xDE, 0xAD, 0xBE, 0xEF, 0x12, 0x34];
    for o in 0..6u64 {
        d.write_config_u8(o, bytes[o as usize]);
        assert_eq!(d.read_config_u8(o), bytes[o as usize]);
    }
    // still there after all six writes
    for o in 0..6u64 {
        assert_eq!(d.read_config_u8(o), bytes[o as usize]);
    }
}

#[test]
fn mac_write_programs_specific_address_registers() {
    let mut d = test_driver();
    let bytes: [u8; 6] = [0x02, 0x00, 0x00, 0x00, 0x00, 0x01];
    for o in 0..6u64 {
        d.write_config_u8(o, bytes[o as usize]);
    }
    for o in 0..6u64 {
        assert_eq!(d.read_config_u8(o), bytes[o as usize]);
    }
    assert_eq!(d.register_value(GEM_SPADDR1LO), 0x0000_0002);
    assert_eq!(d.register_value(GEM_SPADDR1HI), 0x0000_0100);
}

#[test]
fn mtu_offsets_read_little_endian_2048() {
    let mut d = test_driver();
    assert_eq!(d.read_config_u8(10), 0x00);
    assert_eq!(d.read_config_u8(11), 0x08);
    // independent of the MAC and of prior writes
    for o in 0..6u64 {
        d.write_config_u8(o, 0xFF);
    }
    d.write_config_u8(10, 0x55);
    d.write_config_u8(11, 0x55);
    assert_eq!(d.read_config_u8(10), 0x00);
    assert_eq!(d.read_config_u8(11), 0x08);
}

#[test]
fn offsets_beyond_config_space_read_zero() {
    let mut d = test_driver();
    for o in [6u64, 7, 8, 9, 12, 13, 64, 1000] {
        assert_eq!(d.read_config_u8(o), 0);
    }
    // regardless of prior writes, at and beyond offset 12
    d.write_config_u8(12, 0xAA);
    d.write_config_u8(1000, 0xBB);
    for o in [12u64, 13, 1000] {
        assert_eq!(d.read_config_u8(o), 0);
    }
}

#[test]
fn non_mac_writes_are_noops() {
    let mut d = test_driver();
    for o in [6u64, 9, 10, 11, 12, 500] {
        d.write_config_u8(o, 0x77);
    }
    for o in 0..6u64 {
        assert_eq!(d.read_config_u8(o), 0);
    }
    assert_eq!(d.register_value(GEM_SPADDR1LO), 0);
    assert_eq!(d.register_value(GEM_SPADDR1HI), 0);
}
