//! Rules of the WebSocket motor-control session: what a `cmd_vel` message
//! asks for, when the command watchdog disables the motors, and when a lost
//! connection has to disable them.
use vstd::prelude::*;
use crate::cli::same_text;

verus! {

/// Milliseconds without a command after which the motors are disabled.
pub const WATCHDOG_MS: u64 = 1000;

/// The same watchdog limit in nanoseconds.
pub const WATCHDOG_NS: u64 = 1_000_000_000;

/// Length of one control cycle in milliseconds (20 Hz).
pub const CYCLE_MS: u64 = 50;

/// What a control message asks for.
#[derive(Debug, Clone, Copy, PartialEq, Eq, Structural)]
pub enum WsCommand {
    /// `{"cmd": "disable"}`
    Disable,
    /// `{"cmd": "enable"}`
    Enable,
    /// Any other message: a velocity command (`linear`, `angular`).
    Velocity,
}

/// The command of a control message with the optional `cmd` field `cmd`.
pub open spec fn command_of(cmd: Option<Seq<char>>) -> WsCommand {
    match cmd {
        Some(c) => if c == "disable"@ {
            WsCommand::Disable
        } else if c == "enable"@ {
            WsCommand::Enable
        } else {
            WsCommand::Velocity
        },
        None => WsCommand::Velocity,
    }
}

/// Classifies a control message by its optional `cmd` field.
pub fn classify_command(cmd: Option<&str>) -> (r: WsCommand)
    ensures
        r == command_of(
            match cmd {
                Some(c) => Some(c@),
                None => None,
            },
        ),
{
    match cmd {
        Some(c) => {
            if same_text(c, "disable") {
                WsCommand::Disable
            } else if same_text(c, "enable") {
                WsCommand::Enable
            } else {
                WsCommand::Velocity
            }
        },
        None => WsCommand::Velocity,
    }
}

/// Session state: whether the motors were stopped (disabled) by a command,
/// the watchdog or an error.
pub struct DriveSession {
    pub stopped: bool,
}

impl DriveSession {
    /// A new connection: the motors were just enabled.
    pub fn new() -> (s: Self)
        ensures
            !s.stopped,
    {
        DriveSession { stopped: false }
    }

    /// A command arrived: a disable command stops the session, an enable or
    /// velocity command runs it.
    pub fn on_command(&mut self, cmd: WsCommand)
        ensures
            final(self).stopped == (cmd == WsCommand::Disable),
    {
        self.stopped = match cmd {
            WsCommand::Disable => true,
            _ => false,
        };
    }

    /// The watchdog, `ns_since_command` nanoseconds after the last command: a
    /// running session that heard nothing for longer than `WATCHDOG_NS` must
    /// disable the motors (the result) and is stopped from then on.
    pub fn check_watchdog(&mut self, ns_since_command: u64) -> (disable: bool)
        ensures
            disable == (!old(self).stopped && ns_since_command > WATCHDOG_NS),
            final(self).stopped == (old(self).stopped || disable),
    {
        if !self.stopped && ns_since_command > WATCHDOG_NS {
            self.stopped = true;
            true
        } else {
            false
        }
    }

    /// The bus was reconnected and the motors re-initialised: running again.
    pub fn on_reconnected(&mut self)
        ensures
            !final(self).stopped,
    {
        self.stopped = false;
    }

    /// The connection ended: the motors must be disabled unless stopped.
    pub fn must_disable_on_close(&self) -> (r: bool)
        ensures
            r == !self.stopped,
    {
        !self.stopped
    }
}

/// First wait before reconnecting to the motor-control server, in seconds.
pub const INITIAL_BACKOFF_SECS: u64 = 1;

/// Longest wait before reconnecting, in seconds.
pub const MAX_BACKOFF_SECS: u64 = 30;

/// The wait after another failed attempt: doubled, at most
/// `MAX_BACKOFF_SECS`.
pub fn next_backoff_secs(backoff_secs: u64) -> (r: u64)
    requires
        backoff_secs <= u64::MAX / 2,
    ensures
        r == if 2 * backoff_secs < MAX_BACKOFF_SECS {
            2 * backoff_secs
        } else {
            MAX_BACKOFF_SECS as int
        },
{
    let doubled = backoff_secs * 2;
    if doubled < MAX_BACKOFF_SECS {
        doubled
    } else {
        MAX_BACKOFF_SECS
    }
}

} // verus!
