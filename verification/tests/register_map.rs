use macb::driver::DEVICE_ID;
use macb::driver::FEATURES;
use macb::driver::QUEUE_NUM_MAX;
use macb::driver::VIRTIO_MTU;
use macb::regs::GEM_DMACFG;
use macb::regs::GEM_NWCTRL;
use macb::regs::GEM_PHYMNTNC_ADDR;
use macb::regs::GEM_PHYMNTNC_ADDR_SHFT;
use macb::regs::GEM_RBQPH;
use macb::regs::GEM_RXQBASE;
use macb::regs::GEM_SPADDR1LO;
use macb::regs::GEM_TBQPH;
use macb::regs::GEM_TXQBASE;
use macb::regs::RegisterBank;
use macb::regs::extract_field;
use macb::regs::insert_field;

#[test]
fn word_indices_match_hardware_byte_offsets() {
    assert_eq!(GEM_NWCTRL, 0);
    assert_eq!(GEM_DMACFG, 0x10 / 4);
    assert_eq!(GEM_RXQBASE, 0x18 / 4);
    assert_eq!(GEM_TXQBASE, 0x1C / 4);
    assert_eq!(GEM_SPADDR1LO, 0x88 / 4);
    assert_eq!(GEM_TBQPH, 0x4C8 / 4);
    assert_eq!(GEM_RBQPH, 0x4D4 / 4);
}

#[test]
fn register_bank_reads_back_writes() {
    let mut bank = RegisterBank::new();
    assert_eq!(bank.read(GEM_NWCTRL), 0);
    bank.write(GEM_NWCTRL, 0x1234_5678);
    bank.write(GEM_DMACFG, 0x9ABC_DEF0);
    assert_eq!(bank.read(GEM_NWCTRL), 0x1234_5678);
    assert_eq!(bank.read(GEM_DMACFG), 0x9ABC_DEF0);
}

#[test]
fn field_accessors_compute_shift_width_masks() {
    assert_eq!(extract_field(0x1234_5678, 8, 8), 0x56);
    assert_eq!(extract_field(0xFFFF_FFFF, 0, 32), 0xFFFF_FFFF);
    assert_eq!(insert_field(0xFFFF_FFFF, 4, 8, 0xAB), 0xFFFF_FABF);
    // insert then extract returns the field
    let composed = insert_field(0, GEM_PHYMNTNC_ADDR_SHFT, 5, 23);
    assert_eq!(composed, 23 << GEM_PHYMNTNC_ADDR_SHFT);
    assert_eq!(composed & !GEM_PHYMNTNC_ADDR, 0);
    assert_eq!(extract_field(composed, GEM_PHYMNTNC_ADDR_SHFT, 5), 23);
}

#[test]
fn virtio_identity_constants() {
    assert_eq!(DEVICE_ID, 1);
    assert_eq!(QUEUE_NUM_MAX, 2);
    assert_eq!(FEATURES, (1 << 5) | (1 << 3));
    assert_eq!(VIRTIO_MTU, 2048);
    assert_eq!(VIRTIO_MTU.to_le_bytes(), [0x00, 0x08]);
}
