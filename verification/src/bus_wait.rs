//! Decisions of the loops that wait on the CAN bus: waiting for an SDO answer
//! and waiting for a lost CAN interface to come back. The caller reads the
//! bus, measures the time and sleeps; these steps decide what to do next.
use vstd::prelude::*;
use crate::can_frame::{CanMsg, id_raw};
use crate::sdo::{is_response_from, rx_cob};

verus! {

/// How long an SDO transfer waits for its answer, in nanoseconds (100 ms).
pub const SDO_TIMEOUT_NS: u64 = 100_000_000;

/// Pause between empty or failed bus reads while waiting for an SDO answer,
/// in milliseconds.
pub const SDO_POLL_PAUSE_MS: u64 = 1;

/// How long a reconnect polls for the interface between checks, in
/// milliseconds.
pub const RECONNECT_POLL_MS: u64 = 500;

/// Whether a wait that has lasted `elapsed_ns` has run past `timeout_ns`.
pub fn wait_expired(elapsed_ns: u64, timeout_ns: u64) -> (r: bool)
    ensures
        r == (elapsed_ns > timeout_ns),
{
    elapsed_ns > timeout_ns
}

/// The outcome of one bus read while waiting for an SDO answer.
#[derive(Debug, Clone, PartialEq, Eq)]
pub enum BusEvent {
    /// A frame was read.
    Frame(CanMsg),
    /// No frame was available.
    Empty,
    /// The read failed in a way that passes (it would block, or timed out).
    Transient,
    /// The read failed for good (the interface is gone).
    Fatal,
}

/// What the SDO wait does after a bus read.
#[derive(Debug, Clone, PartialEq, Eq)]
pub enum WaitAction {
    /// The answer arrived.
    Done(CanMsg),
    /// Another frame: read again at once.
    Listen,
    /// Nothing usable: pause `SDO_POLL_PAUSE_MS`, then read again.
    Pause,
    /// Give up with the read's error.
    Fail,
}

/// The action after bus event `ev` while waiting for the answer of `node_id`:
/// its answer ends the wait, another node's frame is passed over, an empty or
/// transient read pauses, a fatal read fails.
pub open spec fn wait_action(node_id: u8, ev: BusEvent) -> WaitAction {
    match ev {
        BusEvent::Frame(f) => if id_raw(f.id) == rx_cob(node_id) {
            WaitAction::Done(f)
        } else {
            WaitAction::Listen
        },
        BusEvent::Empty => WaitAction::Pause,
        BusEvent::Transient => WaitAction::Pause,
        BusEvent::Fatal => WaitAction::Fail,
    }
}

/// One step of the wait for an SDO answer from `node_id`.
pub fn sdo_wait_step(node_id: u8, ev: BusEvent) -> (a: WaitAction)
    ensures
        a == wait_action(node_id, ev),
{
    match ev {
        BusEvent::Frame(f) => {
            if is_response_from(&f, node_id) {
                WaitAction::Done(f)
            } else {
                WaitAction::Listen
            }
        },
        BusEvent::Empty => WaitAction::Pause,
        BusEvent::Transient => WaitAction::Pause,
        BusEvent::Fatal => WaitAction::Fail,
    }
}

/// What a reconnect does after checking the interface.
#[derive(Debug, Clone, Copy, PartialEq, Eq, Structural)]
pub enum ReconnectAction {
    /// The interface is up: configure it and open a fresh socket.
    Configure,
    /// The interface did not come back in time.
    GiveUp,
    /// Check again after `RECONNECT_POLL_MS`.
    Wait,
}

/// One step of the reconnect wait: an interface that is up is configured;
/// otherwise the wait gives up once it has lasted longer than `timeout_ns`,
/// and waits on before that.
pub fn reconnect_step(interface_up: bool, elapsed_ns: u64, timeout_ns: u64) -> (a: ReconnectAction)
    ensures
        a == if interface_up {
            ReconnectAction::Configure
        } else if elapsed_ns > timeout_ns {
            ReconnectAction::GiveUp
        } else {
            ReconnectAction::Wait
        },
{
    if interface_up {
        ReconnectAction::Configure
    } else if elapsed_ns > timeout_ns {
        ReconnectAction::GiveUp
    } else {
        ReconnectAction::Wait
    }
}

/// The SDO wait ends on a frame exactly when it is the node's SDO answer
/// (COB-ID `0x580 + node_id`); every other frame (heartbeat, PDO, emergency,
/// another node's answer) is passed over and the wait listens on.
pub proof fn lemma_wait_ends_only_on_sdo_answer(node_id: u8, f: CanMsg)
    ensures
        (wait_action(node_id, BusEvent::Frame(f)) == WaitAction::Done(f)) <==> (id_raw(f.id) as int
            == 0x580 + node_id as int),
        id_raw(f.id) as int != 0x580 + node_id as int ==> wait_action(node_id, BusEvent::Frame(f))
            == WaitAction::Listen,
        wait_action(node_id, BusEvent::Frame(f)) != WaitAction::Pause,
        wait_action(node_id, BusEvent::Frame(f)) != WaitAction::Fail,
{
}

/// Without a frame the wait never ends with an answer: empty and transient
/// reads pause, a fatal read fails.
pub proof fn lemma_no_frame_no_answer(node_id: u8)
    ensures
        wait_action(node_id, BusEvent::Empty) == WaitAction::Pause,
        wait_action(node_id, BusEvent::Transient) == WaitAction::Pause,
        wait_action(node_id, BusEvent::Fatal) == WaitAction::Fail,
{
}

} // verus!
