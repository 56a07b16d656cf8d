//! The decisions of a control transfer: what follows from each answer of the
//! client.

use vstd::prelude::*;
use crate::types::{CtrlInResult, CtrlOutResult, CtrlSetupResult, CtrlState, Direction};

verus! {

/// What follows a SETUP packet.
#[derive(Copy, Clone, Debug, PartialEq, Eq, Structural)]
pub enum SetupStep {
    /// The device address is staged; there is no data stage.
    Address,
    /// There is no data stage: the status stage follows at once.
    Status,
    /// The data stage sends to the host.
    DataIn,
    /// The data stage receives from the host.
    DataOut,
    /// Both directions of the control endpoint are stalled.
    Stall,
}

/// What follows the client's answer to a request for data.
#[derive(Copy, Clone, Debug, PartialEq, Eq, Structural)]
pub enum InStep {
    /// A packet of the given size is sent; the flag tells whether it is the
    /// last.
    Send(usize, bool),
    /// Nothing is sent for now.
    Wait,
    /// The IN direction is stalled.
    Stall,
}

/// What follows the client's answer to data from the host.
#[derive(Copy, Clone, Debug, PartialEq, Eq, Structural)]
pub enum OutStep {
    /// The data stage is over.
    Accept,
    /// The OUT direction is stalled.
    Stall,
}

/// What follows a SETUP packet that asks for `length` bytes in `direction`
/// and that the client answered with `result`.
pub open spec fn setup_step(result: CtrlSetupResult, length: usize, direction: Direction) -> SetupStep {
    match result {
        CtrlSetupResult::OkSetAddress => SetupStep::Address,
        CtrlSetupResult::Accept => if length == 0 {
            SetupStep::Status
        } else if direction == Direction::DeviceToHost {
            SetupStep::DataIn
        } else {
            SetupStep::DataOut
        },
        CtrlSetupResult::Error => SetupStep::Stall,
    }
}

/// What follows the answer `result` to a request for data, when the IN buffer
/// holds `capacity` bytes: a packet is cut to what it holds.
pub open spec fn in_step(result: CtrlInResult, capacity: usize) -> InStep {
    match result {
        CtrlInResult::Packet(size, last) => InStep::Send(
            if size <= capacity {
                size
            } else {
                capacity
            },
            last,
        ),
        CtrlInResult::Delay => InStep::Wait,
        CtrlInResult::Error => InStep::Stall,
    }
}

/// What follows the answer `result` to data from the host.
pub open spec fn out_step(result: CtrlOutResult) -> OutStep {
    match result {
        CtrlOutResult::Accept => OutStep::Accept,
        _ => OutStep::Stall,
    }
}

/// The state of the control endpoint in its IN data stage after `step`: the
/// status stage once the last packet is sent, and the data stage until then.
pub open spec fn state_after_in(step: InStep) -> CtrlState {
    match step {
        InStep::Send(_, true) => CtrlState::ReadStatus,
        _ => CtrlState::ReadIn,
    }
}

/// The state of the control endpoint in its OUT data stage after `step`: the
/// status stage once the client has accepted the data.
pub open spec fn state_after_out(step: OutStep) -> CtrlState {
    match step {
        OutStep::Accept => CtrlState::ReadStatus,
        OutStep::Stall => CtrlState::WriteOut,
    }
}

/// The state of the control endpoint after the first `n` of the client's
/// answers in an IN data stage: each answer is taken as long as the data stage
/// lasts.
pub open spec fn in_stage(results: Seq<CtrlInResult>, capacity: usize, n: nat) -> CtrlState
    decreases n,
{
    if n == 0 {
        CtrlState::ReadIn
    } else if in_stage(results, capacity, (n - 1) as nat) == CtrlState::ReadIn {
        state_after_in(in_step(results[n - 1], capacity))
    } else {
        in_stage(results, capacity, (n - 1) as nat)
    }
}

/// Whether `result` is a packet that is marked as the last.
pub open spec fn is_last_packet(result: CtrlInResult) -> bool {
    result matches CtrlInResult::Packet(_, last) && last
}

/// Decides what follows a SETUP packet.
pub fn on_setup(result: CtrlSetupResult, length: usize, direction: Direction) -> (step: SetupStep)
    ensures
        step == setup_step(result, length, direction),
{
    match result {
        CtrlSetupResult::OkSetAddress => SetupStep::Address,
        CtrlSetupResult::Accept => if length == 0 {
            SetupStep::Status
        } else if direction == Direction::DeviceToHost {
            SetupStep::DataIn
        } else {
            SetupStep::DataOut
        },
        CtrlSetupResult::Error => SetupStep::Stall,
    }
}

/// Decides what follows the client's answer to a request for data.
pub fn on_in_data(result: CtrlInResult, capacity: usize) -> (step: InStep)
    ensures
        step == in_step(result, capacity),
{
    match result {
        CtrlInResult::Packet(size, last) => InStep::Send(
            if size <= capacity {
                size
            } else {
                capacity
            },
            last,
        ),
        CtrlInResult::Delay => InStep::Wait,
        CtrlInResult::Error => InStep::Stall,
    }
}

/// Decides what follows the client's answer to data from the host.
pub fn on_out_data(result: CtrlOutResult) -> (step: OutStep)
    ensures
        step == out_step(result),
{
    match result {
        CtrlOutResult::Accept => OutStep::Accept,
        _ => OutStep::Stall,
    }
}

/// The state in which `step` leaves an IN data stage.
pub fn next_in_state(step: InStep) -> (state: CtrlState)
    ensures
        state == state_after_in(step),
{
    match step {
        InStep::Send(_, true) => CtrlState::ReadStatus,
        _ => CtrlState::ReadIn,
    }
}

/// An IN data stage lasts exactly until the client hands over a packet that
/// it marks as the last: the endpoint stays in the data stage through every
/// answer before that one, and the answer itself moves it to the status
/// stage.
pub proof fn in_stage_lasts_until_last_packet(results: Seq<CtrlInResult>, capacity: usize, n: nat)
    requires
        0 < n <= results.len(),
        forall|i: int| 0 <= i < n - 1 ==> !is_last_packet(#[trigger] results[i]),
        is_last_packet(results[n - 1]),
    ensures
        forall|k: nat| k < n ==> #[trigger] in_stage(results, capacity, k) == CtrlState::ReadIn,
        in_stage(results, capacity, n) == CtrlState::ReadStatus,
{
    assert forall|k: nat| k < n implies #[trigger] in_stage(results, capacity, k)
        == CtrlState::ReadIn by {
        stays_in_data_stage(results, capacity, k);
    }
    stays_in_data_stage(results, capacity, (n - 1) as nat);
}

/// As long as no answer is a last packet, the endpoint stays in the data
/// stage.
pub proof fn stays_in_data_stage(results: Seq<CtrlInResult>, capacity: usize, k: nat)
    requires
        k <= results.len(),
        forall|i: int| 0 <= i < k ==> !is_last_packet(#[trigger] results[i]),
    ensures
        in_stage(results, capacity, k) == CtrlState::ReadIn,
    decreases k,
{
    if k > 0 {
        stays_in_data_stage(results, capacity, (k - 1) as nat);
        assert(!is_last_packet(results[k - 1]));
    }
}

} // verus!
