use macb::DmaLayout;
use macb::DriverError;
use macb::MacbDriver;
use macb::driver::RECEIVE_QUEUE;
use macb::driver::TRANSMIT_QUEUE;
use macb::regs::GEM_ISR;
use macb::regs::GEM_NWCTRL;
use macb::regs::RegisterBank;

fn test_layout() -> DmaLayout {
    let mut rx_buffer_addrs: Vec<u64> = Vec::new();
    let mut tx_buffer_addrs: Vec<u64> = Vec::new();
    for i in 0..8u64 {
        rx_buffer_addrs.push(0x5000_0000 + 0x800 * i);
        tx_buffer_addrs.push(0x6000_0000 + 0x800 * i);
    }
    DmaLayout {
        rx_ring_base: 0x4000_0000,
        tx_ring_base: 0x4000_1000,
        rx_buffer_addrs,
        tx_buffer_addrs,
    }
}

fn test_driver() -> MacbDriver {
    MacbDriver::new(RegisterBank::new(), test_layout())
}

#[test]
fn transmit_doorbell_places_single_frame() {
    let mut d = test_driver();
    d.reset();
    let mut frame: Vec<u8> = Vec::new();
    for i in 0..64u8 {
        frame.push(i + 1);
    }
    assert_eq!(d.supply_transmit_frame(frame), Ok(()));
    d.doorbell(TRANSMIT_QUEUE);
    let desc = d.tx_descriptor(0);
    // the buffer's physical address, length 64, last-buffer flag, used bit
    // cleared (handed to hardware)
    assert_eq!(desc.word0, 0x6000_0000);
    assert_eq!(desc.word1, 64 | 0x8000);
    // the transmit-start control bit was strobed
    assert_eq!(d.register_value(GEM_NWCTRL), 0x200);
    // the frame's bytes reached the bound buffer; the tail is untouched
    for j in 0..64usize {
        assert_eq!(d.tx_buffer_byte(0, j), (j as u8) + 1);
    }
    assert_eq!(d.tx_buffer_byte(0, 64), 0);
    assert_eq!(d.pending_transmit_frames(), 0);
}

#[test]
fn transmit_doorbell_fills_ring_with_wrap_flag() {
    let mut d = test_driver();
    d.reset();
    for n in 0..8usize {
        let mut frame: Vec<u8> = Vec::new();
        for _ in 0..(n + 10) {
            frame.push(n as u8);
        }
        assert_eq!(d.supply_transmit_frame(frame), Ok(()));
    }
    d.doorbell(TRANSMIT_QUEUE);
    assert_eq!(d.pending_transmit_frames(), 0);
    for i in 0..8usize {
        let desc = d.tx_descriptor(i);
        assert_eq!(desc.word0, 0x6000_0000u32 + 0x800 * (i as u32));
        let len = (i + 10) as u32;
        if i == 7 {
            assert_eq!(desc.word1, len | 0x8000 | 0x4000_0000);
        } else {
            assert_eq!(desc.word1, len | 0x8000);
        }
    }
    // every descriptor is now hardware-owned: a further frame stays pending
    // and nothing is strobed again
    let mut extra: Vec<u8> = Vec::new();
    extra.push(0xEE);
    assert_eq!(d.supply_transmit_frame(extra), Ok(()));
    d.doorbell(TRANSMIT_QUEUE);
    assert_eq!(d.pending_transmit_frames(), 1);
    assert_eq!(d.register_value(GEM_NWCTRL), 0x200);
    assert_eq!(d.tx_descriptor(0).word1, 10 | 0x8000);
}

#[test]
fn transmit_doorbell_backpressure_without_reset() {
    // before any reset every transmit descriptor reads as hardware-owned,
    // so the doorbell places nothing and does not strobe transmit start
    let mut d = test_driver();
    let mut frame: Vec<u8> = Vec::new();
    frame.push(0x42);
    assert_eq!(d.supply_transmit_frame(frame), Ok(()));
    d.doorbell(TRANSMIT_QUEUE);
    assert_eq!(d.register_value(GEM_NWCTRL), 0);
    assert_eq!(d.pending_transmit_frames(), 1);
    let desc = d.tx_descriptor(0);
    assert_eq!(desc.word0, 0);
    assert_eq!(desc.word1, 0);
}

#[test]
fn overlong_transmit_frame_is_refused() {
    let mut d = test_driver();
    let mut frame: Vec<u8> = Vec::new();
    for _ in 0..2049 {
        frame.push(0);
    }
    assert_eq!(d.supply_transmit_frame(frame), Err(DriverError::FrameTooLong));
    let mut fits: Vec<u8> = Vec::new();
    for _ in 0..2048 {
        fits.push(0);
    }
    assert_eq!(d.supply_transmit_frame(fits), Ok(()));
}

#[test]
fn ninth_pending_transmit_frame_is_refused() {
    let mut d = test_driver();
    for _ in 0..8 {
        let mut frame: Vec<u8> = Vec::new();
        frame.push(1);
        assert_eq!(d.supply_transmit_frame(frame), Ok(()));
    }
    let mut frame: Vec<u8> = Vec::new();
    frame.push(1);
    assert_eq!(d.supply_transmit_frame(frame), Err(DriverError::QueueFull));
}

#[test]
fn receive_doorbell_rearms_supplied_descriptors() {
    let mut d = test_driver();
    for _ in 0..3 {
        assert_eq!(d.supply_receive_buffer(), Ok(()));
    }
    d.doorbell(RECEIVE_QUEUE);
    for i in 0..3usize {
        let desc = d.rx_descriptor(i);
        assert_eq!(desc.word0, 0x5000_0000u32 + 0x800 * (i as u32));
        assert_eq!(desc.word1, 0);
    }
    // the fourth descriptor was not supplied and stays as it was
    assert_eq!(d.rx_descriptor(3).word0, 0);
}

#[test]
fn receive_doorbell_wraps_final_descriptor() {
    let mut d = test_driver();
    for _ in 0..8 {
        assert_eq!(d.supply_receive_buffer(), Ok(()));
    }
    d.doorbell(RECEIVE_QUEUE);
    for i in 0..8usize {
        let desc = d.rx_descriptor(i);
        let addr = 0x5000_0000u32 + 0x800 * (i as u32);
        if i == 7 {
            assert_eq!(desc.word0, addr | 0x2);
        } else {
            assert_eq!(desc.word0, addr);
        }
    }
}

#[test]
fn ninth_receive_buffer_is_refused() {
    let mut d = test_driver();
    for _ in 0..8 {
        assert_eq!(d.supply_receive_buffer(), Ok(()));
    }
    assert_eq!(d.supply_receive_buffer(), Err(DriverError::QueueFull));
    // the doorbell drains the count; buffers can be supplied again
    d.doorbell(RECEIVE_QUEUE);
    assert_eq!(d.supply_receive_buffer(), Ok(()));
}

#[test]
fn interrupt_reports_and_clears_guest_bits() {
    let mut bank = RegisterBank::new();
    // transmit-complete and receive-complete pending, plus one unrelated bit
    bank.write(GEM_ISR, 0x80 | 0x2 | 0x1);
    let mut d = MacbDriver::new(bank, test_layout());
    assert!(d.interrupt());
    // the consumed guest bits are cleared, the unrelated bit is left
    assert_eq!(d.register_value(GEM_ISR), 0x1);
    assert!(!d.interrupt());
}

#[test]
fn interrupt_ignores_non_guest_bits() {
    let mut bank = RegisterBank::new();
    bank.write(GEM_ISR, 0x70 | 0x1);
    let mut d = MacbDriver::new(bank, test_layout());
    assert!(!d.interrupt());
    assert_eq!(d.register_value(GEM_ISR), 0x70 | 0x1);
}

#[test]
fn doorbell_for_unknown_queue_is_noop() {
    let mut d = test_driver();
    let mut frame: Vec<u8> = Vec::new();
    frame.push(0x42);
    assert_eq!(d.supply_transmit_frame(frame), Ok(()));
    d.doorbell(2);
    d.doorbell(99);
    assert_eq!(d.register_value(GEM_NWCTRL), 0);
    assert_eq!(d.pending_transmit_frames(), 1);
    assert_eq!(d.tx_descriptor(0).word1, 0);
}
