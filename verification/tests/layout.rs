use usb_otg::layout::{FifoLayout, FIFO_RAM_WORDS};
use usb_otg::types::UsbError;

#[test]
fn fifos_are_laid_out_one_behind_the_other() {
    let mut layout = FifoLayout::new();
    assert_eq!(layout.total(), 0);
    assert_eq!(layout.set_rx(0x80), Ok(()));
    assert_eq!(layout.add_tx(0, 0x40), Ok(0x80));
    assert_eq!(layout.add_tx(1, 0x80), Ok(0xC0));
    assert_eq!(layout.total(), FIFO_RAM_WORDS);
    assert_eq!(layout.tx_count(), 2);
    assert_eq!(layout.rx_depth(), 0x80);
}

#[test]
fn fifo_that_does_not_fit_is_refused() {
    let mut layout = FifoLayout::new();
    assert_eq!(layout.set_rx(321), Err(UsbError::Configuration));
    assert_eq!(layout.set_rx(320), Ok(()));
    assert_eq!(layout.add_tx(0, 1), Err(UsbError::Configuration));
    assert_eq!(layout.add_tx(0, 0), Ok(320));
    assert_eq!(layout.total(), 320);
}

#[test]
fn fifos_are_assigned_in_order() {
    let mut layout = FifoLayout::new();
    assert_eq!(layout.add_tx(1, 16), Err(UsbError::Configuration));
    assert_eq!(layout.add_tx(0, 16), Ok(0));
    assert_eq!(layout.set_rx(16), Err(UsbError::Configuration));
    assert_eq!(layout.add_tx(0, 16), Err(UsbError::Configuration));
    for fifo in 1..6 {
        assert_eq!(layout.add_tx(fifo, 16), Ok(16 * fifo as u32));
    }
    assert_eq!(layout.add_tx(6, 16), Err(UsbError::Configuration));
    assert_eq!(layout.total(), 96);
}
