use std::cell::Cell;
use std::sync::OnceLock;

use usb_core::descriptor::StandardStringIndex;
use usb_core::descriptor::UsbDeviceClass;
use usb_core::descriptor::UsbDeviceDescriptor;
use usb_core::descriptor::UsbVersion;
use usb_core::device::DispatchOutcome;
use usb_core::device::EP_CTR_RX;
use usb_core::device::EP_CTR_TX;
use usb_core::device::EP_SETUP;
use usb_core::device::ISTR_CTR;
use usb_core::device::ISTR_ERR;
use usb_core::device::ISTR_RESET;
use usb_core::device::ISTR_SOF;
use usb_core::device::ISTR_SUSP;
use usb_core::device::ISTR_WKUP;
use usb_core::device::UsbDevice;
use usb_core::device::UsbEventHandler;
use usb_core::device::get_ep;
use usb_core::device::reset;
use usb_core::device::usb_can1_rx0_interrupt;
use usb_core::pma::PMA;
use usb_core::pma::PMA_SIZE;

fn static_descriptor() -> &'static UsbDeviceDescriptor {
    static DESCRIPTOR: OnceLock<UsbDeviceDescriptor> = OnceLock::new();
    DESCRIPTOR.get_or_init(|| UsbDeviceDescriptor {
        specification_version: UsbVersion::new(1, 1, 0),
        device_class: UsbDeviceClass::HID.code(),
        device_sub_class: 0,
        device_protocol: 0,
        max_packet_size_ep0: 0,
        vendor_id: 0x1209,
        product_id: 0x0001,
        device_version: UsbVersion::new(0, 0, 1),
        manufacturer: StandardStringIndex::NoString.index(),
        product: StandardStringIndex::NoString.index(),
        serial_number: StandardStringIndex::NoString.index(),
        num_configurations: 0,
    })
}

struct CountingHandler<'a> {
    calls: &'a Cell<u32>,
}

impl<'a> UsbEventHandler<u8> for CountingHandler<'a> {
    fn get_device_descriptor(&self, _resources: u8) -> &'static UsbDeviceDescriptor {
        self.calls.set(self.calls.get() + 1);
        static_descriptor()
    }
}

fn device_with(istr: u16, endpoints: [u16; 8]) -> UsbDevice {
    UsbDevice {
        istr,
        daddr: 0,
        endpoints: endpoints.to_vec(),
        pma: PMA::new(),
    }
}

#[test]
fn fresh_device_is_unconfigured() {
    let usb = UsbDevice::new();
    assert_eq!(usb.istr, 0);
    assert_eq!(usb.daddr, 0);
    for ep in 0..8u8 {
        assert_eq!(get_ep(&usb, ep), 0);
    }
    for offset in 0..PMA_SIZE {
        assert_eq!(usb.pma.get_u16(offset), 0);
    }
}

#[test]
fn reset_clears_endpoints_addresses_and_daddr() {
    let mut usb = device_with(0, [0xEA60, 1, 2, 3, 4, 5, 6, 7]);
    usb.daddr = 0x0081;
    for ep in 0..8u8 {
        usb.pma.set_txaddr(ep, 448);
        usb.pma.set_rxaddr(ep, 384);
        usb.pma.set_txcount(ep, 8);
    }
    reset(&mut usb);
    assert_eq!(usb.daddr, 0);
    for ep in 0..8u8 {
        assert_eq!(get_ep(&usb, ep), 0);
        assert_eq!(usb.pma.get_txaddr(ep), 0);
        assert_eq!(usb.pma.get_rxaddr(ep), 0);
        // Counts are not part of the reset contract and stay.
        assert_eq!(usb.pma.get_txcount(ep), 8);
    }
}

#[test]
fn reset_flag_reinitializes_and_is_cleared_without_handler_call() {
    let calls = Cell::new(0);
    let handler = CountingHandler { calls: &calls };
    let mut usb = device_with(ISTR_RESET | ISTR_SOF, [0x1234; 8]);
    usb.daddr = 0x0081;
    usb.pma.set_txaddr(0, 448);
    usb.pma.set_rxaddr(0, 384);

    let outcome = usb_can1_rx0_interrupt(&mut usb, 0u8, handler);

    assert_eq!(outcome, DispatchOutcome::Reset);
    assert_eq!(calls.get(), 0);
    assert_eq!(usb.istr & ISTR_RESET, 0);
    // Only the reset flag is cleared; the pending start-of-frame stays.
    assert_eq!(usb.istr, ISTR_SOF);
    assert_eq!(usb.daddr, 0);
    for ep in 0..8u8 {
        assert_eq!(get_ep(&usb, ep), 0);
        assert_eq!(usb.pma.get_txaddr(ep), 0);
        assert_eq!(usb.pma.get_rxaddr(ep), 0);
    }
}

#[test]
fn setup_reception_invokes_handler_once_and_clears_only_ctr() {
    let calls = Cell::new(0);
    let handler = CountingHandler { calls: &calls };
    let mut endpoints = [0u16; 8];
    endpoints[0] = EP_CTR_RX | EP_SETUP;
    let before = ISTR_CTR | ISTR_SOF | ISTR_WKUP | ISTR_SUSP | ISTR_ERR;
    let mut usb = device_with(before, endpoints);

    let outcome = usb_can1_rx0_interrupt(&mut usb, 7u8, handler);

    assert_eq!(outcome, DispatchOutcome::SetupReceived);
    assert_eq!(calls.get(), 1);
    assert_eq!(usb.istr & ISTR_CTR, 0);
    // The other event flags are untouched.
    assert_eq!(usb.istr, ISTR_SOF | ISTR_WKUP | ISTR_SUSP | ISTR_ERR);
    assert_eq!(get_ep(&usb, 0), EP_CTR_RX | EP_SETUP);
}

#[test]
fn plain_reception_is_left_to_the_extension_point() {
    let calls = Cell::new(0);
    let handler = CountingHandler { calls: &calls };
    let mut endpoints = [0u16; 8];
    endpoints[2] = EP_CTR_RX;
    let mut usb = device_with(ISTR_CTR | 2, endpoints);

    let outcome = usb_can1_rx0_interrupt(&mut usb, 0u8, handler);

    assert_eq!(outcome, DispatchOutcome::OutReceived);
    assert_eq!(calls.get(), 0);
    assert_eq!(usb.istr, 2);
}

#[test]
fn transmit_completion_falls_through_to_the_trap() {
    // The dispatcher's second direction test repeats the receive flag, so
    // a pure transmit completion is reported as the endpoint trap.
    let calls = Cell::new(0);
    let handler = CountingHandler { calls: &calls };
    let mut endpoints = [0u16; 8];
    endpoints[1] = EP_CTR_TX;
    let mut usb = device_with(ISTR_CTR | 1, endpoints);

    let outcome = usb_can1_rx0_interrupt(&mut usb, 0u8, handler);

    assert_eq!(outcome, DispatchOutcome::EndpointTrap);
    assert_eq!(calls.get(), 0);
    assert_eq!(usb.istr, 1);
}

#[test]
fn idle_endpoint_with_ctr_flag_traps() {
    let calls = Cell::new(0);
    let handler = CountingHandler { calls: &calls };
    let mut usb = device_with(ISTR_CTR, [0u16; 8]);

    let outcome = usb_can1_rx0_interrupt(&mut usb, 0u8, handler);

    assert_eq!(outcome, DispatchOutcome::EndpointTrap);
    assert_eq!(usb.istr, 0);
}

#[test]
fn housekeeping_flags_are_cleared_one_per_activation() {
    let calls = Cell::new(0);
    let mut usb = device_with(ISTR_SOF | ISTR_WKUP | ISTR_SUSP | ISTR_ERR, [0u16; 8]);

    let outcome = usb_can1_rx0_interrupt(&mut usb, 0u8, CountingHandler { calls: &calls });
    assert_eq!(outcome, DispatchOutcome::StartOfFrame);
    assert_eq!(usb.istr, ISTR_WKUP | ISTR_SUSP | ISTR_ERR);

    let outcome = usb_can1_rx0_interrupt(&mut usb, 0u8, CountingHandler { calls: &calls });
    assert_eq!(outcome, DispatchOutcome::Wakeup);
    assert_eq!(usb.istr, ISTR_SUSP | ISTR_ERR);

    let outcome = usb_can1_rx0_interrupt(&mut usb, 0u8, CountingHandler { calls: &calls });
    assert_eq!(outcome, DispatchOutcome::Suspend);
    assert_eq!(usb.istr, ISTR_ERR);

    let outcome = usb_can1_rx0_interrupt(&mut usb, 0u8, CountingHandler { calls: &calls });
    assert_eq!(outcome, DispatchOutcome::BusError);
    assert_eq!(usb.istr, 0);
    assert_eq!(calls.get(), 0);
}

#[test]
fn unrecognized_status_traps_and_leaves_register_untouched() {
    let calls = Cell::new(0);
    let handler = CountingHandler { calls: &calls };
    // Only bits the dispatcher does not recognize: the endpoint field and
    // reserved positions.
    let before = 0x010B;
    let mut usb = device_with(before, [0u16; 8]);

    let outcome = usb_can1_rx0_interrupt(&mut usb, 0u8, handler);

    assert_eq!(outcome, DispatchOutcome::UnknownTrap);
    assert_eq!(usb.istr, before);
    assert_eq!(calls.get(), 0);
}

#[test]
fn dispatched_reset_frees_the_whole_arena() {
    let calls = Cell::new(0);
    let mut usb = device_with(ISTR_RESET, [0u16; 8]);
    let tx = usb.pma.try_get_next_buffer(64).unwrap();
    usb.pma.set_txaddr(0, tx);
    assert_eq!(usb.pma.try_get_next_buffer(64), Some(384));

    let outcome = usb_can1_rx0_interrupt(&mut usb, 0u8, CountingHandler { calls: &calls });

    assert_eq!(outcome, DispatchOutcome::Reset);
    // The descriptor table is empty again, so allocation restarts at the
    // top of the arena.
    assert_eq!(usb.pma.try_get_next_buffer(64), Some(448));
}

#[test]
fn handler_descriptor_reaches_the_dispatcher() {
    let bytes = static_descriptor().serialize();
    assert_eq!(bytes.len(), 18);
    assert_eq!(bytes[8], 0x09);
    assert_eq!(bytes[9], 0x12);
}
