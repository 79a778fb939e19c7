//! Motor control decisions for the DS20270DA drives: which SDO transfers each
//! motor command makes, how raw register values convert to motor units, and
//! the CiA 402 enable sequence.
use vstd::prelude::*;
use crate::can_frame::{CanId, CanMsg};
use crate::od;
use crate::sdo::{read_request, write_request, sdo_bytes, tx_cob, SDO_READ, SDO_WRITE_4BYTE};
use crate::can_frame::id_for_cob;

verus! {

/// PV (Profile Velocity) mode.
pub const PV_MODE: u8 = 3;

/// NMT "start remote node" command specifier.
pub const NMT_START_NODE: u8 = 0x01;

/// COB-ID of NMT commands.
pub const NMT_COB_ID: u16 = 0x000;

/// Node ID of the left wheel drive.
pub const LEFT_WHEEL_ID: u8 = 0x01;

/// Node ID of the right wheel drive.
pub const RIGHT_WHEEL_ID: u8 = 0x02;

// CiA 402 control words.
pub const CW_DISABLE: u16 = 0x0000;
pub const CW_SHUTDOWN: u16 = 0x0006;
pub const CW_SWITCH_ON: u16 = 0x0007;
pub const CW_ENABLE_OPERATION: u16 = 0x000F;
pub const CW_FAULT_RESET: u16 = 0x0080;

// ── SDO transfers of the motor commands ─────────────────────────────────

/// What an SDO transfer does: write a 4-byte value, or read.
#[derive(Debug, Clone, Copy, PartialEq, Eq, Structural)]
pub enum SdoAccess {
    Write(u32),
    Read,
}

/// One SDO transfer to object `index`/`subindex` of node `node_id`.
#[derive(Debug, Clone, Copy, PartialEq, Eq, Structural)]
pub struct SdoRequest {
    pub node_id: u8,
    pub index: u16,
    pub subindex: u8,
    pub access: SdoAccess,
}

/// A write of `value` to `index`, subindex 0, of `node_id`.
pub open spec fn write_of(node_id: u8, index: u16, value: u32) -> SdoRequest {
    SdoRequest { node_id, index, subindex: 0, access: SdoAccess::Write(value) }
}

/// A read of `index`, subindex 0, of `node_id`.
pub open spec fn read_of(node_id: u8, index: u16) -> SdoRequest {
    SdoRequest { node_id, index, subindex: 0, access: SdoAccess::Read }
}

impl SdoRequest {
    /// The request frame of this transfer.
    pub fn frame(&self) -> (f: CanMsg)
        ensures
            f.id == id_for_cob(tx_cob(self.node_id)),
            f.data@ == match self.access {
                SdoAccess::Write(v) => sdo_bytes(SDO_WRITE_4BYTE, self.index, self.subindex, v),
                SdoAccess::Read => sdo_bytes(SDO_READ, self.index, self.subindex, 0),
            },
    {
        match self.access {
            SdoAccess::Write(v) => write_request(self.node_id, self.index, self.subindex, v),
            SdoAccess::Read => read_request(self.node_id, self.index, self.subindex),
        }
    }
}

/// Set the operating mode (0x6060), e.g. `PV_MODE`.
pub fn set_mode_request(node_id: u8, mode: u8) -> (r: SdoRequest)
    ensures
        r == write_of(node_id, od::MODES_OF_OPERATION, mode as u32),
{
    SdoRequest {
        node_id,
        index: od::MODES_OF_OPERATION,
        subindex: 0,
        access: SdoAccess::Write(mode as u32),
    }
}

/// Set acceleration (0x6083) then deceleration (0x6084).
pub fn set_accel_requests(node_id: u8, accel: u32, decel: u32) -> (r: (SdoRequest, SdoRequest))
    ensures
        r.0 == write_of(node_id, od::PROFILE_ACCELERATION, accel),
        r.1 == write_of(node_id, od::PROFILE_DECELERATION, decel),
{
    (
        SdoRequest {
            node_id,
            index: od::PROFILE_ACCELERATION,
            subindex: 0,
            access: SdoAccess::Write(accel),
        },
        SdoRequest {
            node_id,
            index: od::PROFILE_DECELERATION,
            subindex: 0,
            access: SdoAccess::Write(decel),
        },
    )
}

/// Write a control word (0x6040).
pub fn control_word_request(node_id: u8, control_word: u16) -> (r: SdoRequest)
    ensures
        r == write_of(node_id, od::CONTROL_WORD, control_word as u32),
{
    SdoRequest {
        node_id,
        index: od::CONTROL_WORD,
        subindex: 0,
        access: SdoAccess::Write(control_word as u32),
    }
}

/// Disable the motor: control word 0x0000.
pub fn disable_request(node_id: u8) -> (r: SdoRequest)
    ensures
        r == write_of(node_id, od::CONTROL_WORD, 0),
{
    control_word_request(node_id, CW_DISABLE)
}

/// The target-velocity register value (unit 0.1 rpm) for `rpm`: `rpm * 10`,
/// as the bits of an `i32`.
pub open spec fn velocity_register(rpm: int) -> u32 {
    if rpm * 10 >= 0 {
        (rpm * 10) as u32
    } else {
        (rpm * 10 + 0x1_0000_0000) as u32
    }
}

/// `rpm * 10` fits in an `i32`.
pub open spec fn rpm_in_range(rpm: i32) -> bool {
    i32::MIN <= rpm * 10 <= i32::MAX
}

/// Converts rpm to the target-velocity register value (0.1 rpm units).
pub fn velocity_to_raw(rpm: i32) -> (r: u32)
    requires
        rpm_in_range(rpm),
    ensures
        r == velocity_register(rpm as int),
{
    let raw: i32 = rpm * 10;
    let r: u32 = raw as u32;
    assert(r as int == if raw >= 0 {
        raw as int
    } else {
        raw as int + 0x1_0000_0000
    }) by (bit_vector)
        requires
            r == raw as u32,
    ;
    r
}

/// Set the target velocity (0x60FF) to `rpm`.
pub fn set_velocity_request(node_id: u8, rpm: i32) -> (r: SdoRequest)
    requires
        rpm_in_range(rpm),
    ensures
        r == write_of(node_id, od::TARGET_VELOCITY, velocity_register(rpm as int)),
{
    SdoRequest {
        node_id,
        index: od::TARGET_VELOCITY,
        subindex: 0,
        access: SdoAccess::Write(velocity_to_raw(rpm)),
    }
}

/// Stop the motor: target velocity 0.
pub fn stop_request(node_id: u8) -> (r: SdoRequest)
    ensures
        r == write_of(node_id, od::TARGET_VELOCITY, 0),
{
    set_velocity_request(node_id, 0)
}

/// Read the status word (0x6041).
pub fn read_status_request(node_id: u8) -> (r: SdoRequest)
    ensures
        r == read_of(node_id, od::STATUS_WORD),
        r.node_id == node_id,
        r.index == od::STATUS_WORD,
        r.access == SdoAccess::Read,
{
    SdoRequest { node_id, index: od::STATUS_WORD, subindex: 0, access: SdoAccess::Read }
}

/// Read the actual velocity (0x606C).
pub fn read_velocity_request(node_id: u8) -> (r: SdoRequest)
    ensures
        r == read_of(node_id, od::VELOCITY_ACTUAL),
        r.node_id == node_id,
        r.index == od::VELOCITY_ACTUAL,
        r.access == SdoAccess::Read,
{
    SdoRequest { node_id, index: od::VELOCITY_ACTUAL, subindex: 0, access: SdoAccess::Read }
}

/// Read the actual position (0x6063).
pub fn read_position_request(node_id: u8) -> (r: SdoRequest)
    ensures
        r == read_of(node_id, od::POSITION_ACTUAL),
        r.node_id == node_id,
        r.index == od::POSITION_ACTUAL,
        r.access == SdoAccess::Read,
{
    SdoRequest { node_id, index: od::POSITION_ACTUAL, subindex: 0, access: SdoAccess::Read }
}

/// Configure the drive's CAN watchdog: timeout (0x450B) then action (0x450C).
pub fn set_can_watchdog_requests(node_id: u8, timeout_ms: u32, action: u32) -> (r: (
    SdoRequest,
    SdoRequest,
))
    ensures
        r.0 == write_of(node_id, od::CAN_WATCHDOG_TIMEOUT, timeout_ms),
        r.1 == write_of(node_id, od::CAN_WATCHDOG_ACTION, action),
{
    (
        SdoRequest {
            node_id,
            index: od::CAN_WATCHDOG_TIMEOUT,
            subindex: 0,
            access: SdoAccess::Write(timeout_ms),
        },
        SdoRequest {
            node_id,
            index: od::CAN_WATCHDOG_ACTION,
            subindex: 0,
            access: SdoAccess::Write(action),
        },
    )
}

/// The NMT frame that brings `node_id` into the Operational state:
/// COB-ID 0x000, data `[0x01, node_id, 0, 0, 0, 0, 0, 0]`.
pub fn nmt_start_frame(node_id: u8) -> (f: CanMsg)
    ensures
        f.id == CanId::Standard(NMT_COB_ID),
        f.data@ == seq![NMT_START_NODE, node_id, 0u8, 0u8, 0u8, 0u8, 0u8, 0u8],
{
    let data = vec![NMT_START_NODE, node_id, 0, 0, 0, 0, 0, 0];
    let f = CanMsg { id: CanId::Standard(NMT_COB_ID), data };
    assert(f.data@ =~= seq![NMT_START_NODE, node_id, 0u8, 0u8, 0u8, 0u8, 0u8, 0u8]);
    f
}

// ── Register values ──────────────────────────────────────────────────────

/// A 32-bit register value read as a signed `i32`.
pub open spec fn as_signed(raw: u32) -> int {
    if raw < 0x8000_0000 {
        raw as int
    } else {
        raw as int - 0x1_0000_0000
    }
}

/// Integer division rounding toward zero.
pub open spec fn div_toward_zero(a: int, b: int) -> int {
    if a >= 0 {
        a / b
    } else {
        -((-a) / b)
    }
}

/// The status word: the low 16 bits of the value read.
pub fn status_from_raw(raw: u32) -> (r: u16)
    ensures
        r == raw % 0x1_0000,
{
    (raw % 0x1_0000) as u16
}

/// The actual velocity in rpm: the register (0.1 rpm, signed) divided by 10,
/// rounding toward zero.
pub fn velocity_from_raw(raw: u32) -> (r: i32)
    ensures
        r as int == div_toward_zero(as_signed(raw), 10),
{
    let v: i32 = signed_from_raw(raw);
    v / 10
}

/// The actual position in raw encoder counts (signed).
pub fn position_from_raw(raw: u32) -> (r: i32)
    ensures
        r as int == as_signed(raw),
{
    signed_from_raw(raw)
}

fn signed_from_raw(raw: u32) -> (r: i32)
    ensures
        r as int == as_signed(raw),
{
    if raw < 0x8000_0000 {
        raw as i32
    } else {
        let low: u32 = raw - 0x8000_0000;
        (low as i32) - 0x7FFF_FFFF - 1
    }
}

// ── CiA 402 enable sequence ──────────────────────────────────────────────

/// Status word states polled for during the enable sequence.
#[derive(Debug, Clone, Copy, PartialEq, Eq, Structural)]
pub enum StatusTarget {
    /// bit 0 set.
    ReadyToSwitchOn,
    /// bits 0 and 1 set.
    SwitchedOn,
    /// bits 0, 1 and 2 set.
    OperationEnabled,
}

/// Whether status word `sw` shows `target`.
pub open spec fn shows(target: StatusTarget, sw: u16) -> bool {
    match target {
        StatusTarget::ReadyToSwitchOn => sw & 0x0001 == 0x0001,
        StatusTarget::SwitchedOn => sw & 0x0003 == 0x0003,
        StatusTarget::OperationEnabled => sw & 0x0007 == 0x0007,
    }
}

impl StatusTarget {
    /// Whether status word `sw` shows this state.
    pub fn reached(&self, sw: u16) -> (r: bool)
        ensures
            r == shows(*self, sw),
    {
        match self {
            StatusTarget::ReadyToSwitchOn => sw & 0x0001 == 0x0001,
            StatusTarget::SwitchedOn => sw & 0x0003 == 0x0003,
            StatusTarget::OperationEnabled => sw & 0x0007 == 0x0007,
        }
    }
}

/// Longest wait for a status word target during the enable sequence, in
/// nanoseconds (2 s).
pub const STATUS_POLL_TIMEOUT_NS: u64 = 2_000_000_000;

/// Pause between status reads while waiting, in milliseconds.
pub const STATUS_POLL_INTERVAL_MS: u64 = 20;

/// What the status wait does after reading status word `sw`.
#[derive(Debug, Clone, Copy, PartialEq, Eq, Structural)]
pub enum StatusWait {
    /// The target state is shown.
    Reached,
    /// Not reached within the timeout.
    TimedOut,
    /// Read again after `STATUS_POLL_INTERVAL_MS`.
    Poll,
}

/// One step of the wait for `target`: a status word that shows it ends the
/// wait; otherwise the wait times out once it has lasted longer than
/// `timeout_ns`, and polls on before that.
pub fn status_wait_step(target: StatusTarget, sw: u16, elapsed_ns: u64, timeout_ns: u64) -> (a: StatusWait)
    ensures
        a == if shows(target, sw) {
            StatusWait::Reached
        } else if elapsed_ns > timeout_ns {
            StatusWait::TimedOut
        } else {
            StatusWait::Poll
        },
{
    if target.reached(sw) {
        StatusWait::Reached
    } else if elapsed_ns > timeout_ns {
        StatusWait::TimedOut
    } else {
        StatusWait::Poll
    }
}

/// Whether status word `sw` shows Operation Enabled (bits 0 to 2 set).
pub fn is_operation_enabled(sw: u16) -> (r: bool)
    ensures
        r == shows(StatusTarget::OperationEnabled, sw),
{
    sw & 0x0007 == 0x0007
}

/// One step of the enable sequence: write `control_word`, then poll the status
/// word until it shows `target`.
#[derive(Debug, Clone, Copy, PartialEq, Eq, Structural)]
pub struct EnableStep {
    pub control_word: u16,
    pub target: StatusTarget,
}

/// Shutdown: go to Ready to Switch On.
pub open spec fn shutdown_step() -> EnableStep {
    EnableStep { control_word: CW_SHUTDOWN, target: StatusTarget::ReadyToSwitchOn }
}

/// Switch On: go to Switched On.
pub open spec fn switch_on_step() -> EnableStep {
    EnableStep { control_word: CW_SWITCH_ON, target: StatusTarget::SwitchedOn }
}

/// Enable Operation: go to Operation Enabled.
pub open spec fn enable_operation_step() -> EnableStep {
    EnableStep { control_word: CW_ENABLE_OPERATION, target: StatusTarget::OperationEnabled }
}

/// The full sequence from Switch On Disabled.
pub open spec fn full_enable_sequence() -> Seq<EnableStep> {
    seq![shutdown_step(), switch_on_step(), enable_operation_step()]
}

/// The steps that take a drive with status word `sw` to Operation Enabled:
/// none when it is there already, the last one from Switched On, the last two
/// from Ready to Switch On, all three otherwise.
pub open spec fn enable_steps(sw: u16) -> Seq<EnableStep> {
    if sw & 0x0007 == 0x0007 {
        Seq::empty()
    } else if sw & 0x0003 == 0x0003 {
        full_enable_sequence().subrange(2, 3)
    } else if sw & 0x0001 == 0x0001 {
        full_enable_sequence().subrange(1, 3)
    } else {
        full_enable_sequence()
    }
}

/// The plan of the enable sequence for a drive whose status word is `sw`:
/// whether to reset a fault first (control word 0x0080), then the steps.
pub struct EnablePlan {
    pub fault_reset: bool,
    pub steps: Vec<EnableStep>,
}

/// Plans the CiA 402 enable sequence from the current status word.
///
/// A drive already in Operation Enabled needs nothing. Otherwise a fault
/// (bit 3) is reset first, and the steps start from the drive's state.
pub fn enable_plan(sw: u16) -> (p: EnablePlan)
    ensures
        p.fault_reset == (sw & 0x0007 != 0x0007 && sw & 0x0008 != 0),
        p.steps@ == enable_steps(sw),
{
    let shutdown = EnableStep {
        control_word: CW_SHUTDOWN,
        target: StatusTarget::ReadyToSwitchOn,
    };
    let switch_on = EnableStep { control_word: CW_SWITCH_ON, target: StatusTarget::SwitchedOn };
    let enable_op = EnableStep {
        control_word: CW_ENABLE_OPERATION,
        target: StatusTarget::OperationEnabled,
    };
    if sw & 0x0007 == 0x0007 {
        let steps: Vec<EnableStep> = Vec::new();
        assert(steps@ =~= enable_steps(sw));
        return EnablePlan { fault_reset: false, steps };
    }
    let fault_reset = sw & 0x0008 != 0;
    let is_switched_on = sw & 0x0003 == 0x0003;
    let is_ready = sw & 0x0001 == 0x0001;
    let steps = if is_switched_on {
        vec![enable_op]
    } else if is_ready {
        vec![switch_on, enable_op]
    } else {
        vec![shutdown, switch_on, enable_op]
    };
    assert(steps@ =~= enable_steps(sw));
    EnablePlan { fault_reset, steps }
}

/// The enable plan is the tail of the full Shutdown → Switch On → Enable
/// Operation sequence; it is empty exactly when the drive is already in
/// Operation Enabled, and otherwise ends by waiting for Operation Enabled, so
/// a drive that shows the last step's target is enabled.
pub proof fn lemma_enable_plan_reaches_operation_enabled(sw: u16, final_sw: u16)
    ensures
        enable_steps(sw).len() <= 3,
        enable_steps(sw) == full_enable_sequence().subrange(
            3 - enable_steps(sw).len(),
            3,
        ),
        (enable_steps(sw).len() == 0) == shows(StatusTarget::OperationEnabled, sw),
        enable_steps(sw).len() > 0 ==> enable_steps(sw).last().target
            == StatusTarget::OperationEnabled,
        enable_steps(sw).len() > 0 && shows(enable_steps(sw).last().target, final_sw)
            ==> shows(StatusTarget::OperationEnabled, final_sw),
{
    assert(full_enable_sequence().subrange(0, 3) =~= full_enable_sequence());
    assert(full_enable_sequence().subrange(3, 3) =~= Seq::<EnableStep>::empty());
}

/// Each status target is shown exactly by its CiA 402 bits: Ready to Switch
/// On by bit 0, Switched On by bits 0 and 1, Operation Enabled by bits 0 to 2;
/// so each later state implies the earlier ones, and a status word with bit 0
/// clear (Switch On Disabled, 0x0240) shows none of them.
pub proof fn lemma_status_targets_are_bits(sw: u16)
    ensures
        shows(StatusTarget::ReadyToSwitchOn, sw) <==> sw % 2 == 1,
        shows(StatusTarget::SwitchedOn, sw) <==> sw % 4 == 3,
        shows(StatusTarget::OperationEnabled, sw) <==> sw % 8 == 7,
        shows(StatusTarget::OperationEnabled, sw) ==> shows(StatusTarget::SwitchedOn, sw),
        shows(StatusTarget::SwitchedOn, sw) ==> shows(StatusTarget::ReadyToSwitchOn, sw),
{
    assert((sw & 0x0001 == 0x0001) <==> sw % 2 == 1) by (bit_vector);
    assert((sw & 0x0003 == 0x0003) <==> sw % 4 == 3) by (bit_vector);
    assert((sw & 0x0007 == 0x0007) <==> sw % 8 == 7) by (bit_vector);
}

/// Every motor request addresses the node it is given and the object of its
/// command: reads of the status word (0x6041), velocity (0x606C) and position
/// (0x6063), and writes of a value, all at subindex 0; its frame goes to
/// COB-ID `0x600 + node_id`.
pub proof fn lemma_requests_address_their_node(node_id: u8, index: u16, value: u32)
    ensures
        read_of(node_id, index).node_id == node_id,
        read_of(node_id, index).index == index,
        read_of(node_id, index).subindex == 0,
        read_of(node_id, index).access == SdoAccess::Read,
        write_of(node_id, index, value).node_id == node_id,
        write_of(node_id, index, value).index == index,
        write_of(node_id, index, value).subindex == 0,
        write_of(node_id, index, value).access == SdoAccess::Write(value),
        crate::can_frame::id_raw(id_for_cob(tx_cob(node_id))) as int == 0x600 + node_id as int,
{
}

} // verus!
