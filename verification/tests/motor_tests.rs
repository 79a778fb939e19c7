use expressone::can_frame::{can_frame_cob, make_can_frame, CanId, CanMsg};
use expressone::motor::{
    control_word_request, disable_request, enable_plan, is_operation_enabled, nmt_start_frame,
    position_from_raw, read_position_request, read_status_request, read_velocity_request,
    set_accel_requests, set_can_watchdog_requests, set_mode_request, set_velocity_request,
    status_from_raw, stop_request, velocity_from_raw, velocity_to_raw, EnableStep, SdoAccess,
    SdoRequest, StatusTarget, CW_ENABLE_OPERATION, CW_FAULT_RESET, CW_SHUTDOWN, CW_SWITCH_ON,
    PV_MODE, status_wait_step, StatusWait, STATUS_POLL_INTERVAL_MS, STATUS_POLL_TIMEOUT_NS,
};
use expressone::od;
use expressone::sdo::{
    check_write_response, decode_read_response, is_response_from, SdoError, SDO_READ_4BYTE,
    SDO_RX_BASE, SDO_WRITE_SUCCESS,
};
use std::collections::VecDeque;

/// A bus whose answers are queued in advance; an empty queue stands for the
/// answer timing out.
struct MockBus {
    responses: VecDeque<CanMsg>,
    sent: Vec<CanMsg>,
}

impl MockBus {
    fn new() -> Self {
        MockBus { responses: VecDeque::new(), sent: Vec::new() }
    }
}

fn push(bus: &mut MockBus, cmd: u8, node_id: u8, index: u16, subindex: u8, value: u32) {
    let mut buf = [0u8; 8];
    buf[0] = cmd;
    buf[1..3].copy_from_slice(&index.to_le_bytes());
    buf[3] = subindex;
    buf[4..8].copy_from_slice(&value.to_le_bytes());
    bus.responses.push_back(make_can_frame(SDO_RX_BASE + node_id as u32, &buf));
}

fn push_ack(bus: &mut MockBus, node_id: u8, index: u16, subindex: u8, data: u32) {
    push(bus, SDO_WRITE_SUCCESS, node_id, index, subindex, data);
}

fn push_read(bus: &mut MockBus, node_id: u8, index: u16, subindex: u8, value: u32) {
    push(bus, SDO_READ_4BYTE, node_id, index, subindex, value);
}

/// Runs one SDO transfer on the mock bus.
fn transfer(bus: &mut MockBus, req: SdoRequest) -> Result<u32, SdoError> {
    bus.sent.push(req.frame());
    let answer = loop {
        match bus.responses.pop_front() {
            None => return Err(SdoError::Timeout { cob_id: SDO_RX_BASE + req.node_id as u32 }),
            Some(f) if is_response_from(&f, req.node_id) => break f,
            Some(_) => {}
        }
    };
    match req.access {
        SdoAccess::Write(_) => {
            check_write_response(req.node_id, req.index, req.subindex, &answer.data).map(|_| 0)
        }
        SdoAccess::Read => decode_read_response(req.node_id, req.index, req.subindex, &answer.data),
    }
}

fn read_status(bus: &mut MockBus, node_id: u8) -> Result<u16, SdoError> {
    transfer(bus, read_status_request(node_id)).map(status_from_raw)
}

/// The enable sequence; time passes only between status polls.
fn enable(bus: &mut MockBus, node_id: u8) -> Result<(), SdoError> {
    let sw = read_status(bus, node_id)?;
    let plan = enable_plan(sw);
    if plan.fault_reset {
        transfer(bus, control_word_request(node_id, CW_FAULT_RESET))?;
    }
    for step in plan.steps {
        transfer(bus, control_word_request(node_id, step.control_word))?;
        let mut elapsed_ns: u64 = 0;
        loop {
            let sw = read_status(bus, node_id)?;
            match status_wait_step(step.target, sw, elapsed_ns, STATUS_POLL_TIMEOUT_NS) {
                StatusWait::Reached => break,
                StatusWait::TimedOut => panic!("status timeout"),
                StatusWait::Poll => elapsed_ns += STATUS_POLL_INTERVAL_MS * 1_000_000,
            }
        }
    }
    Ok(())
}

#[test]
fn test_set_mode() {
    let mut bus = MockBus::new();
    push_ack(&mut bus, 1, od::MODES_OF_OPERATION, 0, 3);
    transfer(&mut bus, set_mode_request(1, PV_MODE)).unwrap();
    assert_eq!(bus.sent.len(), 1);
}

#[test]
fn test_set_accel() {
    let mut bus = MockBus::new();
    push_ack(&mut bus, 1, od::PROFILE_ACCELERATION, 0, 1000);
    push_ack(&mut bus, 1, od::PROFILE_DECELERATION, 0, 1000);
    let (accel, decel) = set_accel_requests(1, 1000, 1000);
    transfer(&mut bus, accel).unwrap();
    transfer(&mut bus, decel).unwrap();
    assert_eq!(bus.sent.len(), 2);
}

#[test]
fn test_set_velocity_positive() {
    let mut bus = MockBus::new();
    // 500 rpm → 5000 raw (0.1 rpm unit)
    push_ack(&mut bus, 1, od::TARGET_VELOCITY, 0, 5000);
    let req = set_velocity_request(1, 500);
    assert_eq!(req.access, SdoAccess::Write(5000));
    transfer(&mut bus, req).unwrap();
}

#[test]
fn test_set_velocity_negative() {
    let mut bus = MockBus::new();
    // -300 rpm → -3000 raw (0.1 rpm unit)
    let expected_u32 = (-3000i32) as u32;
    push_ack(&mut bus, 1, od::TARGET_VELOCITY, 0, expected_u32);
    let req = set_velocity_request(1, -300);
    assert_eq!(req.access, SdoAccess::Write(expected_u32));
    transfer(&mut bus, req).unwrap();
}

#[test]
fn test_read_status() {
    let mut bus = MockBus::new();
    push_read(&mut bus, 1, od::STATUS_WORD, 0, 0x0237);
    let status = read_status(&mut bus, 1).unwrap();
    assert_eq!(status, 0x0237);
}

#[test]
fn test_enable_sequence() {
    let mut bus = MockBus::new();
    push_read(&mut bus, 1, od::STATUS_WORD, 0, 0x0231);
    push_ack(&mut bus, 1, od::CONTROL_WORD, 0, 0x07);
    push_read(&mut bus, 1, od::STATUS_WORD, 0, 0x0233);
    push_ack(&mut bus, 1, od::CONTROL_WORD, 0, 0x0F);
    push_read(&mut bus, 1, od::STATUS_WORD, 0, 0x0237);
    enable(&mut bus, 1).unwrap();
    // 1 status read + 2 writes + 2 status reads
    assert_eq!(bus.sent.len(), 5);
}

#[test]
fn test_enable_already_enabled() {
    let mut bus = MockBus::new();
    push_read(&mut bus, 1, od::STATUS_WORD, 0, 0x0237);
    enable(&mut bus, 1).unwrap();
    assert_eq!(bus.sent.len(), 1);
}

#[test]
fn test_enable_from_disabled() {
    let mut bus = MockBus::new();
    push_read(&mut bus, 1, od::STATUS_WORD, 0, 0x0240);
    push_ack(&mut bus, 1, od::CONTROL_WORD, 0, 0x06);
    push_read(&mut bus, 1, od::STATUS_WORD, 0, 0x0231);
    push_ack(&mut bus, 1, od::CONTROL_WORD, 0, 0x07);
    push_read(&mut bus, 1, od::STATUS_WORD, 0, 0x0233);
    push_ack(&mut bus, 1, od::CONTROL_WORD, 0, 0x0F);
    push_read(&mut bus, 1, od::STATUS_WORD, 0, 0x0237);
    enable(&mut bus, 1).unwrap();
    // 1 status read + 3 writes + 3 status reads
    assert_eq!(bus.sent.len(), 7);
}

#[test]
fn test_disable() {
    let mut bus = MockBus::new();
    push_ack(&mut bus, 1, od::CONTROL_WORD, 0, 0x00);
    transfer(&mut bus, disable_request(1)).unwrap();
}

#[test]
fn test_stop() {
    let mut bus = MockBus::new();
    push_ack(&mut bus, 1, od::TARGET_VELOCITY, 0, 0);
    transfer(&mut bus, stop_request(1)).unwrap();
}

#[test]
fn enable_plans_for_each_state() {
    let shutdown = EnableStep { control_word: CW_SHUTDOWN, target: StatusTarget::ReadyToSwitchOn };
    let switch_on = EnableStep { control_word: CW_SWITCH_ON, target: StatusTarget::SwitchedOn };
    let enable_op =
        EnableStep { control_word: CW_ENABLE_OPERATION, target: StatusTarget::OperationEnabled };
    let p = enable_plan(0x0237);
    assert!(!p.fault_reset && p.steps.is_empty());
    let p = enable_plan(0x0233);
    assert_eq!(p.steps, vec![enable_op]);
    let p = enable_plan(0x0231);
    assert_eq!(p.steps, vec![switch_on, enable_op]);
    let p = enable_plan(0x0240);
    assert!(!p.fault_reset);
    assert_eq!(p.steps, vec![shutdown, switch_on, enable_op]);
    // a fault (bit 3) is reset first
    let p = enable_plan(0x0248);
    assert!(p.fault_reset);
    assert_eq!(p.steps, vec![shutdown, switch_on, enable_op]);
    // an enabled drive with the fault bit needs nothing
    let p = enable_plan(0x023F);
    assert!(!p.fault_reset && p.steps.is_empty());
}

#[test]
fn fault_reset_is_written_first() {
    let mut bus = MockBus::new();
    push_read(&mut bus, 1, od::STATUS_WORD, 0, 0x0238);
    push_ack(&mut bus, 1, od::CONTROL_WORD, 0, 0x80);
    push_ack(&mut bus, 1, od::CONTROL_WORD, 0, 0x06);
    push_read(&mut bus, 1, od::STATUS_WORD, 0, 0x0231);
    push_ack(&mut bus, 1, od::CONTROL_WORD, 0, 0x07);
    push_read(&mut bus, 1, od::STATUS_WORD, 0, 0x0233);
    push_ack(&mut bus, 1, od::CONTROL_WORD, 0, 0x0F);
    push_read(&mut bus, 1, od::STATUS_WORD, 0, 0x0237);
    enable(&mut bus, 1).unwrap();
    assert_eq!(bus.sent.len(), 8);
    assert_eq!(bus.sent[1].data[4], 0x80);
}

#[test]
fn status_targets() {
    assert!(StatusTarget::ReadyToSwitchOn.reached(0x0231));
    assert!(!StatusTarget::SwitchedOn.reached(0x0231));
    assert!(StatusTarget::SwitchedOn.reached(0x0233));
    assert!(!StatusTarget::OperationEnabled.reached(0x0233));
    assert!(is_operation_enabled(0x0237));
    assert!(!is_operation_enabled(0x0240));
}

#[test]
fn register_conversions() {
    assert_eq!(velocity_to_raw(500), 5000);
    assert_eq!(velocity_to_raw(-300), (-3000i32) as u32);
    assert_eq!(velocity_to_raw(0), 0);
    assert_eq!(velocity_from_raw(4985), 498);
    assert_eq!(velocity_from_raw((-4985i32) as u32), -498);
    assert_eq!(velocity_from_raw(0x8000_0000), i32::MIN / 10);
    assert_eq!(status_from_raw(0x0001_0237), 0x0237);
    assert_eq!(position_from_raw(0xFFFF_FFFF), -1);
    assert_eq!(position_from_raw(5600), 5600);
}

#[test]
fn motor_command_requests() {
    let (accel, decel) = set_accel_requests(2, 1000, 900);
    assert_eq!(accel, SdoRequest { node_id: 2, index: 0x6083, subindex: 0, access: SdoAccess::Write(1000) });
    assert_eq!(decel, SdoRequest { node_id: 2, index: 0x6084, subindex: 0, access: SdoAccess::Write(900) });
    let (timeout, action) = set_can_watchdog_requests(1, 500, 1);
    assert_eq!(timeout.index, 0x450B);
    assert_eq!(timeout.access, SdoAccess::Write(500));
    assert_eq!(action.index, 0x450C);
    assert_eq!(action.access, SdoAccess::Write(1));
    assert_eq!(read_velocity_request(1).index, 0x606C);
    assert_eq!(read_position_request(1).index, 0x6063);
    assert_eq!(read_position_request(1).access, SdoAccess::Read);
    assert_eq!(disable_request(2).access, SdoAccess::Write(0));
    assert_eq!(stop_request(2), SdoRequest { node_id: 2, index: 0x60FF, subindex: 0, access: SdoAccess::Write(0) });
    let f = set_mode_request(1, PV_MODE).frame();
    assert_eq!(can_frame_cob(&f), 0x601);
    assert_eq!(f.data, vec![0x23, 0x60, 0x60, 0x00, 0x03, 0, 0, 0]);
}

#[test]
fn nmt_start_layout() {
    let f = nmt_start_frame(2);
    assert_eq!(f.id, CanId::Standard(0));
    assert_eq!(f.data, vec![0x01, 0x02, 0, 0, 0, 0, 0, 0]);
}

#[test]
fn status_wait_steps() {
    assert_eq!(status_wait_step(StatusTarget::SwitchedOn, 0x0233, 5_000_000_000, STATUS_POLL_TIMEOUT_NS), StatusWait::Reached);
    assert_eq!(status_wait_step(StatusTarget::SwitchedOn, 0x0231, 2_000_000_001, STATUS_POLL_TIMEOUT_NS), StatusWait::TimedOut);
    assert_eq!(status_wait_step(StatusTarget::SwitchedOn, 0x0231, 2_000_000_000, STATUS_POLL_TIMEOUT_NS), StatusWait::Poll);
}
