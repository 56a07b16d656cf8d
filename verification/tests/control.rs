use usb_otg::control::{
    next_in_state, on_in_data, on_out_data, on_setup, InStep, OutStep, SetupStep,
};
use usb_otg::types::{CtrlInResult, CtrlOutResult, CtrlSetupResult, CtrlState, Direction};

#[test]
fn setup_answer_decides_the_next_stage() {
    let d2h = Direction::DeviceToHost;
    let h2d = Direction::HostToDevice;
    assert_eq!(on_setup(CtrlSetupResult::OkSetAddress, 0, h2d), SetupStep::Address);
    assert_eq!(on_setup(CtrlSetupResult::OkSetAddress, 8, d2h), SetupStep::Address);
    assert_eq!(on_setup(CtrlSetupResult::Accept, 0, d2h), SetupStep::Status);
    assert_eq!(on_setup(CtrlSetupResult::Accept, 0, h2d), SetupStep::Status);
    assert_eq!(on_setup(CtrlSetupResult::Accept, 1, d2h), SetupStep::DataIn);
    assert_eq!(on_setup(CtrlSetupResult::Accept, 18, h2d), SetupStep::DataOut);
    assert_eq!(on_setup(CtrlSetupResult::Error, 0, d2h), SetupStep::Stall);
    assert_eq!(on_setup(CtrlSetupResult::Error, 18, h2d), SetupStep::Stall);
}

#[test]
fn in_data_answer_is_cut_to_the_buffers() {
    assert_eq!(on_in_data(CtrlInResult::Packet(18, true), 64), InStep::Send(18, true));
    assert_eq!(on_in_data(CtrlInResult::Packet(64, false), 64), InStep::Send(64, false));
    assert_eq!(on_in_data(CtrlInResult::Packet(65, false), 64), InStep::Send(64, false));
    assert_eq!(on_in_data(CtrlInResult::Packet(0, true), 8), InStep::Send(0, true));
    assert_eq!(on_in_data(CtrlInResult::Delay, 64), InStep::Wait);
    assert_eq!(on_in_data(CtrlInResult::Error, 64), InStep::Stall);
}

#[test]
fn out_data_answer_accepts_or_stalls() {
    assert_eq!(on_out_data(CtrlOutResult::Accept), OutStep::Accept);
    assert_eq!(on_out_data(CtrlOutResult::Delay), OutStep::Stall);
    assert_eq!(on_out_data(CtrlOutResult::Halted), OutStep::Stall);
}

#[test]
fn data_stage_ends_with_the_last_packet() {
    assert_eq!(next_in_state(InStep::Send(8, true)), CtrlState::ReadStatus);
    assert_eq!(next_in_state(InStep::Send(8, false)), CtrlState::ReadIn);
    assert_eq!(next_in_state(InStep::Wait), CtrlState::ReadIn);
    assert_eq!(next_in_state(InStep::Stall), CtrlState::ReadIn);
}
