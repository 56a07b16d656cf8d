//! What becomes of a SETUP packet that the client refuses.

use vstd::prelude::*;
use crate::bits::any_set;
use crate::endpoints::USB_OTG_CORE_ID_300A;
use crate::fields::{
    DOEPINT_STSPHSRX, DOEPINT_STUP, DOEPINT_XFRC, EPCTL_STALL, GINT_CMOD, GINT_OEPINT,
};
use crate::history::{rest_of_out_endpoint_only_adds, serving_on_only_adds, setup_done_only_adds};
use crate::order::{
    before_out_endpoint, interrupt_serves_in_order, interrupts_pending,
    out_endpoint_is_reached_in_order, out_flags_pending,
};
use crate::regs::{Access, Register, NUM_ENDPOINTS};
use crate::types::CtrlSetupResult;
use crate::usbotg::Model;

verus! {

/// A SETUP packet that the client refuses sets STALL on the IN side and on
/// the OUT side of the control endpoint, and does nothing else to the
/// peripheral.
pub proof fn refused_setup_stalls_both_directions(m: Model)
    requires
        m.wf(),
        m.serves_control(),
        m.reply().setup == CtrlSetupResult::Error,
    ensures
        m.handle_ctrl_setup().bus.log == m.bus.log + seq![
            Access::Modify(Register::Diepctl(0), EPCTL_STALL, EPCTL_STALL),
            Access::Modify(Register::Doepctl(0), EPCTL_STALL, EPCTL_STALL),
        ],
        m.handle_ctrl_setup().endpoints == m.endpoints,
{
    assert(m.handle_ctrl_setup().bus.log =~= m.bus.log + seq![
        Access::Modify(Register::Diepctl(0), EPCTL_STALL, EPCTL_STALL),
        Access::Modify(Register::Doepctl(0), EPCTL_STALL, EPCTL_STALL),
    ]);
}

/// When the end of a SETUP stage is served and the client refuses the SETUP
/// packet, the last two accesses of that service set STALL on the IN side and
/// on the OUT side of the control endpoint; whatever the interrupt serves
/// afterwards only adds to them.
pub proof fn refused_setup_is_stalled_when_its_stage_is_done(m: Model)
    requires
        m.wf(),
        m.serves_control(),
        m.reply().setup == CtrlSetupResult::Error,
    ensures
        ({
            let log = m.setup_done().bus.log;
            &&& log.len() >= m.bus.log.len() + 2
            &&& log[log.len() - 2] == Access::Modify(Register::Diepctl(0), EPCTL_STALL, EPCTL_STALL)
            &&& log[log.len() - 1] == Access::Modify(Register::Doepctl(0), EPCTL_STALL, EPCTL_STALL)
        }),
{
    let started = m.write(Register::Doepint(0), DOEPINT_STUP).ep_0_start_transfer_out();
    let id = started.read(Register::Cid);
    let seen = if started.bus.next() >= USB_OTG_CORE_ID_300A {
        let flags = id.read(Register::Doepint(0));
        if any_set(id.bus.next(), DOEPINT_STSPHSRX) {
            flags.write(Register::Doepint(0), DOEPINT_STSPHSRX)
        } else {
            flags
        }
    } else {
        id
    };
    assert(seen.serves_control());
    assert(seen.reply() == m.reply());
    assert(seen.bus.log.len() >= m.bus.log.len());
    assert(seen.endpoints.len() == m.endpoints.len());
    assert forall|i: int| 0 <= i < NUM_ENDPOINTS implies (#[trigger] seen.endpoints[i]).wf() by {
        assert(m.endpoints[i].wf());
    }
    refused_setup_stalls_both_directions(seen);
}

/// Whether `log` holds at `k` the access that sets STALL on the IN side of
/// the control endpoint, and right behind it the one that sets STALL on its
/// OUT side.
pub open spec fn stalled_at(log: Seq<Access>, k: int) -> bool {
    &&& 0 <= k && k + 1 < log.len()
    &&& log[k] == Access::Modify(Register::Diepctl(0), EPCTL_STALL, EPCTL_STALL)
    &&& log[k + 1] == Access::Modify(Register::Doepctl(0), EPCTL_STALL, EPCTL_STALL)
}

/// What is in a log stays where it is when more is logged.
proof fn stall_stays(later: Model, earlier: Model, k: int)
    requires
        later.follows(earlier),
        stalled_at(earlier.bus.log, k),
    ensures
        stalled_at(later.bus.log, k),
{
    assert(later.bus.log[k] == earlier.bus.log[k]);
    assert(later.bus.log[k + 1] == earlier.bus.log[k + 1]);
}

/// The service of the OUT endpoint stalls a SETUP packet that the client
/// refuses.
proof fn out_endpoint_stalls_refused_setup(m: Model)
    requires
        m.wf(),
        m.serves_control(),
        m.reply().setup == CtrlSetupResult::Error,
        any_set(m.bus.next() & m.read(Register::Doepint(0)).bus.next(), DOEPINT_STUP),
    ensures
        exists|k: int| m.bus.log.len() <= k && stalled_at(m.service_out_endpoint().bus.log, k),
{
    let pending = m.bus.next() & m.read(Register::Doepint(0)).bus.next();
    let acked = m.read(Register::Doepint(0)).read(Register::Doepmsk).ack_out(pending, DOEPINT_XFRC);
    assert forall|i: int| 0 <= i < NUM_ENDPOINTS implies (#[trigger] acked.endpoints[i]).wf() by {
        assert(m.endpoints[i].wf());
    }
    refused_setup_is_stalled_when_its_stage_is_done(acked);
    setup_done_only_adds(acked);
    let stalled = acked.setup_done();
    let k = stalled.bus.log.len() - 2;
    assert(stalled_at(stalled.bus.log, k));
    rest_of_out_endpoint_only_adds(stalled, pending);
    stall_stays(m.service_out_endpoint(), stalled, k);
}

/// A SETUP packet that the client refuses is stalled before the interrupt
/// that serves the end of its SETUP stage returns: when that interrupt is
/// over, the engine has set STALL on the IN side and then on the OUT side of
/// the control endpoint.
pub proof fn refused_setup_is_stalled_before_the_interrupt_returns(m: Model)
    requires
        m.wf(),
        m.serves_control(),
        m.reply().setup == CtrlSetupResult::Error,
        !any_set(m.bus.next(), GINT_CMOD),
        any_set(interrupts_pending(m), GINT_OEPINT),
        any_set(out_flags_pending(m), DOEPINT_STUP),
    ensures
        exists|k: int| m.bus.log.len() <= k && stalled_at(m.handle_interrupt().1.bus.log, k),
{
    let pending = interrupts_pending(m);
    let received = before_out_endpoint(m);
    out_endpoint_is_reached_in_order(m);
    out_endpoint_stalls_refused_setup(received);
    let k = choose|k: int|
        received.bus.log.len() <= k && stalled_at(received.service_out_endpoint().bus.log, k);
    let served = received.service_out_endpoint();
    let third = served.write(Register::Gintsts, GINT_OEPINT);
    stall_stays(third, served, k);
    serving_on_only_adds(third, pending, 3);
    let last = third.serve_from(pending, 3).1;
    stall_stays(last, third, k);
    interrupt_serves_in_order(m);
}

} // verus!
