//! Endpoint register file and interrupt dispatch: the eight endpoint
//! control/status registers, the aggregated interrupt status register, and
//! the priority-ordered handling of one interrupt activation.

use vstd::prelude::*;
use crate::descriptor::UsbDeviceDescriptor;
use crate::pma::PMA;
use crate::pma::BDT_END;
use crate::pma::ENDPOINTS;
use crate::pma::PMA_SIZE;
use crate::pma::entry_offset;

verus! {

/// Correct-transfer flag of the interrupt status register.
pub const ISTR_CTR: u16 = 0x8000;

/// Error flag of the interrupt status register.
pub const ISTR_ERR: u16 = 0x2000;

/// Wakeup flag of the interrupt status register.
pub const ISTR_WKUP: u16 = 0x1000;

/// Suspend flag of the interrupt status register.
pub const ISTR_SUSP: u16 = 0x0800;

/// Bus-reset flag of the interrupt status register.
pub const ISTR_RESET: u16 = 0x0400;

/// Start-of-frame flag of the interrupt status register.
pub const ISTR_SOF: u16 = 0x0200;

/// Endpoint-identifier field of the interrupt status register, valid only
/// while the correct-transfer flag is set.
pub const ISTR_EP_ID: u16 = 0x000F;

/// Receive-direction correct-transfer flag of an endpoint register.
pub const EP_CTR_RX: u16 = 0x8000;

/// Setup flag of an endpoint register: the completed reception was the
/// Setup stage of a control transfer.
pub const EP_SETUP: u16 = 0x0800;

/// Transmit-direction correct-transfer flag of an endpoint register.
pub const EP_CTR_TX: u16 = 0x0080;

/// The USB peripheral's register block and packet memory, held as plain
/// values by the core's single owner: the interrupt status register, the
/// device address register, the eight endpoint control/status registers,
/// and the packet memory area.
pub struct UsbDevice {
    pub istr: u16,
    pub daddr: u16,
    pub endpoints: Vec<u16>,
    pub pma: PMA,
}

impl UsbDevice {
    /// There is one endpoint register per endpoint, and the packet memory
    /// has its fixed size.
    pub open spec fn wf(self) -> bool {
        self.endpoints@.len() == ENDPOINTS && self.pma.wf()
    }

    /// A device in its power-on state: no pending events, address zero,
    /// every endpoint register at its reset value, no buffer allocated.
    pub fn new() -> (r: UsbDevice)
        ensures
            r.wf(),
            r.istr == 0,
            r.daddr == 0,
            forall|e: int| 0 <= e < ENDPOINTS ==> r.endpoints@[e] == 0,
            forall|i: int| 0 <= i < PMA_SIZE ==> r.pma@[i] == 0,
    {
        let mut endpoints: Vec<u16> = Vec::new();
        let mut i: u8 = 0;
        while i < ENDPOINTS
            invariant
                i <= ENDPOINTS,
                endpoints@.len() == i,
                forall|e: int| 0 <= e < i ==> endpoints@[e] == 0,
            decreases ENDPOINTS - i,
        {
            endpoints.push(0);
            i = i + 1;
        }
        UsbDevice { istr: 0, daddr: 0, endpoints, pma: PMA::new() }
    }
}

/// Read the control/status register of endpoint `ep`: the eight registers
/// form one indexable family.
pub fn get_ep(usb: &UsbDevice, ep: u8) -> (r: u16)
    requires
        usb.wf(),
        ep < ENDPOINTS,
    ensures
        r == usb.endpoints@[ep as int],
{
    usb.endpoints[ep as usize]
}

/// How a device after a bus reset relates to the one before: every
/// endpoint register back at its power-on value, every buffer address of
/// the descriptor table zeroed, the device address cleared, and the rest
/// of the packet memory untouched.
pub open spec fn is_reset_state(pre: UsbDevice, post: UsbDevice) -> bool {
    &&& post.endpoints@.len() == ENDPOINTS
    &&& forall|e: int| 0 <= e < ENDPOINTS ==> post.endpoints@[e] == 0
    &&& post.pma@.len() == PMA_SIZE
    &&& forall|e: int|
        0 <= e < ENDPOINTS ==> post.pma@[entry_offset(e)] == 0 && post.pma@[entry_offset(e)
            + 4] == 0
    &&& forall|j: int|
        0 <= j < PMA_SIZE && (j >= BDT_END || (j % 8 != 0 && j % 8 != 4)) ==> post.pma@[j]
            == pre.pma@[j]
    &&& post.daddr == 0
}

/// Return the device to its unconfigured state: reset every endpoint
/// register, zero every buffer address in the descriptor table, and clear
/// the device address. The interrupt status register is left alone.
pub fn reset(usb: &mut UsbDevice)
    requires
        old(usb).wf(),
    ensures
        final(usb).wf(),
        is_reset_state(*old(usb), *final(usb)),
        final(usb).istr == old(usb).istr,
{
    let mut i: u8 = 0;
    while i < ENDPOINTS
        invariant
            usb.wf(),
            old(usb).wf(),
            i <= ENDPOINTS,
            usb.istr == old(usb).istr,
            usb.daddr == old(usb).daddr,
            forall|e: int| 0 <= e < i ==> usb.endpoints@[e] == 0,
            forall|e: int|
                i <= e < ENDPOINTS ==> usb.endpoints@[e] == old(usb).endpoints@[e],
            forall|e: int|
                0 <= e < i ==> usb.pma@[entry_offset(e)] == 0 && usb.pma@[entry_offset(e)
                    + 4] == 0,
            forall|j: int|
                0 <= j < PMA_SIZE && !(exists|e: int|
                    0 <= e < i && (j == entry_offset(e) || j == entry_offset(e) + 4))
                    ==> usb.pma@[j] == old(usb).pma@[j],
        decreases ENDPOINTS - i,
    {
        usb.endpoints.set(i as usize, 0);
        usb.pma.set_rxaddr(i, 0);
        usb.pma.set_txaddr(i, 0);
        i = i + 1;
    }
    usb.daddr = 0;
    proof {
        assert forall|j: int|
            0 <= j < PMA_SIZE && (j >= BDT_END || (j % 8 != 0 && j % 8 != 4)) implies usb.pma@[j]
            == old(usb).pma@[j] by {
            assert(!(exists|e: int|
                0 <= e < ENDPOINTS && (j == entry_offset(e) || j == entry_offset(e) + 4)));
        }
    }
}

/// The event handler capability the surrounding firmware injects into the
/// dispatcher: the single extension point of the core. `Resources` is the
/// scheduler's opaque context, handed through unchanged.
pub trait UsbEventHandler<Resources> {
    /// Produce the static device descriptor that answers a GET_DESCRIPTOR
    /// request for the device.
    fn get_device_descriptor(&self, resources: Resources) -> &'static UsbDeviceDescriptor;
}

/// What one interrupt activation amounted to. The caller owes the two trap
/// variants a diagnostic breakpoint: they mark an unrecoverable
/// inconsistency between driver and hardware.
#[derive(Clone, Copy, PartialEq, Eq, Structural, Debug)]
pub enum DispatchOutcome {
    /// A bus reset was handled: the device is unconfigured again.
    Reset,
    /// The Setup stage of a control transfer arrived and the event handler
    /// supplied the device descriptor. Sending the answer back is an
    /// unimplemented extension point.
    SetupReceived,
    /// An OUT data stage was received: an unimplemented extension point.
    OutReceived,
    /// An IN data stage completed: an unimplemented extension point.
    InCompleted,
    /// A correct transfer was signalled but the endpoint shows neither
    /// direction's flag: trap.
    EndpointTrap,
    /// A start-of-frame mark: cleared, nothing more.
    StartOfFrame,
    /// A wakeup from suspend: cleared, nothing more.
    Wakeup,
    /// A bus suspend: cleared, nothing more.
    Suspend,
    /// A bus error: cleared, nothing more.
    BusError,
    /// No recognized flag was set: trap, status register untouched.
    UnknownTrap,
}

/// A status register that calls for correct-transfer handling: the
/// correct-transfer flag set and the higher-priority reset flag clear.
pub open spec fn ctr_pending(istr: u16) -> bool {
    istr & ISTR_RESET == 0 && istr & ISTR_CTR != 0
}

/// The endpoint index a status register points at.
pub open spec fn spec_ep_id(istr: u16) -> int {
    (istr & ISTR_EP_ID) as int
}

/// Handle one activation of the USB low-priority interrupt line: one
/// read-modify-write cycle on the status register, inspecting the pending
/// flags in strict priority order and handling at most one class of event.
/// The hardware re-raises the interrupt while further flags are pending.
///
/// A bus reset unconfigures the device and clears only the reset flag. A
/// correct transfer consults the flagged endpoint's register: a completed
/// reception that carries the setup flag is the Setup stage of a control
/// transfer, answered by asking the handler for the device descriptor;
/// only the correct-transfer flag is cleared, so no other pending event is
/// dropped. The start-of-frame, wakeup, suspend and error flags are merely
/// cleared. A status register with no recognized flag leaves the register
/// exactly as it was and demands a trap.
pub fn usb_can1_rx0_interrupt<Resources, E: UsbEventHandler<Resources>>(
    usb: &mut UsbDevice,
    r: Resources,
    e: E,
) -> (outcome: DispatchOutcome)
    requires
        old(usb).wf(),
        ctr_pending(old(usb).istr) ==> spec_ep_id(old(usb).istr) < ENDPOINTS,
    ensures
        final(usb).wf(),
        old(usb).istr & ISTR_RESET != 0 ==> is_reset_state(*old(usb), *final(usb))
            && final(usb).istr == old(usb).istr & !ISTR_RESET && outcome
            == DispatchOutcome::Reset,
        old(usb).istr & ISTR_RESET == 0 ==> final(usb).endpoints@ == old(usb).endpoints@
            && final(usb).pma@ == old(usb).pma@ && final(usb).daddr == old(usb).daddr,
        ctr_pending(old(usb).istr) ==> final(usb).istr == old(usb).istr & !ISTR_CTR
            && outcome == (if old(usb).endpoints@[spec_ep_id(old(usb).istr)] & EP_CTR_RX
            != 0 {
            if old(usb).endpoints@[spec_ep_id(old(usb).istr)] & EP_SETUP != 0 {
                DispatchOutcome::SetupReceived
            } else {
                DispatchOutcome::OutReceived
            }
        } else {
            DispatchOutcome::EndpointTrap
        }),
        old(usb).istr & ISTR_RESET == 0 && old(usb).istr & ISTR_CTR == 0 && old(usb).istr
            & ISTR_SOF != 0 ==> final(usb).istr == old(usb).istr & !ISTR_SOF && outcome
            == DispatchOutcome::StartOfFrame,
        old(usb).istr & ISTR_RESET == 0 && old(usb).istr & ISTR_CTR == 0 && old(usb).istr
            & ISTR_SOF == 0 && old(usb).istr & ISTR_WKUP != 0 ==> final(usb).istr == old(
            usb,
        ).istr & !ISTR_WKUP && outcome == DispatchOutcome::Wakeup,
        old(usb).istr & ISTR_RESET == 0 && old(usb).istr & ISTR_CTR == 0 && old(usb).istr
            & ISTR_SOF == 0 && old(usb).istr & ISTR_WKUP == 0 && old(usb).istr & ISTR_SUSP
            != 0 ==> final(usb).istr == old(usb).istr & !ISTR_SUSP && outcome
            == DispatchOutcome::Suspend,
        old(usb).istr & ISTR_RESET == 0 && old(usb).istr & ISTR_CTR == 0 && old(usb).istr
            & ISTR_SOF == 0 && old(usb).istr & ISTR_WKUP == 0 && old(usb).istr & ISTR_SUSP
            == 0 && old(usb).istr & ISTR_ERR != 0 ==> final(usb).istr == old(usb).istr
            & !ISTR_ERR && outcome == DispatchOutcome::BusError,
        old(usb).istr & ISTR_RESET == 0 && old(usb).istr & ISTR_CTR == 0 && old(usb).istr
            & ISTR_SOF == 0 && old(usb).istr & ISTR_WKUP == 0 && old(usb).istr & ISTR_SUSP
            == 0 && old(usb).istr & ISTR_ERR == 0 ==> final(usb).istr == old(usb).istr
            && outcome == DispatchOutcome::UnknownTrap,
{
    let istr = usb.istr;
    if istr & ISTR_RESET != 0 {
        reset(usb);
        usb.istr = istr & !ISTR_RESET;
        return DispatchOutcome::Reset;
    }
    if istr & ISTR_CTR != 0 {
        let ep_index: u8 = (istr & ISTR_EP_ID) as u8;
        let ep = get_ep(usb, ep_index);
        let outcome = if ep & EP_CTR_RX != 0 {
            if ep & EP_SETUP != 0 {
                // Setup stage of a control transfer. The descriptor the
                // handler supplies answers the request; sending it back is
                // an unimplemented extension point, so it is dropped here.
                let _descriptor = e.get_device_descriptor(r);
                DispatchOutcome::SetupReceived
            } else {
                // OUT data stage: an unimplemented extension point.
                DispatchOutcome::OutReceived
            }
        } else if ep & EP_CTR_RX != 0 {
            // This condition repeats the receive-flag test where the
            // transmit flag was surely meant, so an IN completion falls
            // through to the trap below. Kept deliberately: correcting it
            // would change the observable dispatch behaviour.
            DispatchOutcome::InCompleted
        } else {
            // Neither direction's flag despite a correct transfer:
            // driver/hardware desynchronization, owed a trap.
            DispatchOutcome::EndpointTrap
        };
        usb.istr = istr & !ISTR_CTR;
        outcome
    } else if istr & ISTR_SOF != 0 {
        // Not a high-speed device: the keep-alive marks arrive here too.
        usb.istr = istr & !ISTR_SOF;
        DispatchOutcome::StartOfFrame
    } else if istr & ISTR_WKUP != 0 {
        usb.istr = istr & !ISTR_WKUP;
        DispatchOutcome::Wakeup
    } else if istr & ISTR_SUSP != 0 {
        usb.istr = istr & !ISTR_SUSP;
        DispatchOutcome::Suspend
    } else if istr & ISTR_ERR != 0 {
        usb.istr = istr & !ISTR_ERR;
        DispatchOutcome::BusError
    } else {
        // No recognized flag: a logic fault in the dispatcher itself, so
        // the status register is left exactly as it was.
        DispatchOutcome::UnknownTrap
    }
}

} // verus!
